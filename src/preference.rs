//! The user's keep-awake preference, kept under one key of a JSON settings document whose
//! other entries are left as they are.

use vstd::prelude::*;

verus! {

#[verifier::external_type_specification]
#[verifier::external_body]
pub struct ExJsonValue(serde_json::Value);

#[verifier::external_type_specification]
#[verifier::external_body]
pub struct ExJsonError(serde_json::Error);

/// The value that `serde_json::from_str` reads from a text, `None` where it refuses the text.
pub uninterp spec fn json_parse(text: Seq<char>) -> Option<serde_json::Value>;

/// The entry that `Value::get` finds under a string key.
pub uninterp spec fn json_field(v: serde_json::Value, key: Seq<char>) -> Option<serde_json::Value>;

/// The boolean that `Value::as_bool` reads.
pub uninterp spec fn json_bool(v: serde_json::Value) -> Option<bool>;

/// Whether `Value::is_object` holds.
pub uninterp spec fn json_is_object(v: serde_json::Value) -> bool;

/// The text that `serde_json::to_string_pretty` writes for a value.
pub uninterp spec fn json_pretty(v: serde_json::Value) -> Seq<char>;

/// Relies on `serde_json::from_str::<Value>`, whose outcome depends on the text alone.
#[verifier::external_body]
fn parse_json(text: &str) -> (r: Result<serde_json::Value, serde_json::Error>)
    ensures
        match r {
            Ok(v) => json_parse(text@) == Some(v),
            Err(_) => json_parse(text@) is None,
        },
{
    serde_json::from_str::<serde_json::Value>(text)
}

/// Relies on `Value::get` with a string key.
#[verifier::external_body]
fn json_get<'a>(v: &'a serde_json::Value, key: &str) -> (r: Option<&'a serde_json::Value>)
    ensures
        match r {
            Some(x) => json_field(*v, key@) == Some(*x),
            None => json_field(*v, key@) is None,
        },
        !json_is_object(*v) ==> r is None,
{
    v.get(key)
}

/// Relies on `Value::as_bool`.
#[verifier::external_body]
fn json_as_bool(v: &serde_json::Value) -> (r: Option<bool>)
    ensures
        r == json_bool(*v),
{
    v.as_bool()
}

/// Relies on `Value::is_object`.
#[verifier::external_body]
fn json_test_object(v: &serde_json::Value) -> (r: bool)
    ensures
        r == json_is_object(*v),
{
    v.is_object()
}

/// Relies on `serde_json::Map::new`, wrapped as `Value::Object`: an object without entries.
#[verifier::external_body]
fn empty_object() -> (r: serde_json::Value)
    ensures
        json_is_object(r),
        forall|k: Seq<char>| (#[trigger] json_field(r, k)) is None,
{
    serde_json::Value::Object(serde_json::Map::new())
}

/// Relies on `IndexMut<&str>` for `Value`: on an object it inserts the key or replaces its
/// entry, here with `Value::Bool(b)`, and leaves the other entries alone.
#[verifier::external_body]
fn json_put_bool(v: &mut serde_json::Value, key: &str, b: bool)
    requires
        json_is_object(*old(v)),
    ensures
        json_is_object(*final(v)),
        match json_field(*final(v), key@) {
            Some(x) => json_bool(x) == Some(b),
            None => false,
        },
        forall|k: Seq<char>|
            k != key@ ==> #[trigger] json_field(*final(v), k) == json_field(*old(v), k),
{
    v[key] = serde_json::Value::Bool(b);
}

/// Relies on `serde_json::to_string_pretty` for a `Value`: it writes into a `Vec`, and a
/// `Value` (string keys, finite numbers) serialises without error.
#[verifier::external_body]
fn render_pretty(v: &serde_json::Value) -> (r: Result<String, serde_json::Error>)
    ensures
        r is Ok,
        r matches Ok(s) ==> s@ == json_pretty(*v),
{
    serde_json::to_string_pretty(v)
}

/// The key under which the preference is kept.
pub open spec fn keep_awake_key() -> Seq<char> {
    "keep_awake"@
}

/// The boolean kept under the preference key, if the document holds one there.
pub open spec fn preference_entry(doc: serde_json::Value) -> Option<bool> {
    match json_field(doc, keep_awake_key()) {
        Some(x) => json_bool(x),
        None => None,
    }
}

/// The document that a stored text stands for when it is updated: the parsed text where it is
/// a JSON object, else nothing.
pub open spec fn stored_object(text: Option<&str>) -> Option<serde_json::Value> {
    match text {
        Some(t) => match json_parse(t@) {
            Some(doc) => if json_is_object(doc) {
                Some(doc)
            } else {
                None
            },
            None => None,
        },
        None => None,
    }
}

/// The entry under `k` of the document a save starts from: an absent, unreadable or
/// non-object document counts as an empty object.
pub open spec fn stored_field(text: Option<&str>, k: Seq<char>) -> Option<serde_json::Value> {
    match stored_object(text) {
        Some(doc) => json_field(doc, k),
        None => None,
    }
}

/// The preference that a stored settings text records: on only where the text parses and its
/// preference entry is the boolean `true`; a missing text counts as off.
pub open spec fn stored_preference(text: Option<&str>) -> bool {
    match text {
        Some(t) => match json_parse(t@) {
            Some(doc) => preference_entry(doc) == Some(true),
            None => false,
        },
        None => false,
    }
}

/// `doc` is an object that records `enabled` and holds, under every other key, what the
/// stored text held.
pub open spec fn saved_from(text: Option<&str>, enabled: bool, doc: serde_json::Value) -> bool {
    &&& json_is_object(doc)
    &&& preference_entry(doc) == Some(enabled)
    &&& forall|k: Seq<char>|
        k != keep_awake_key() ==> #[trigger] json_field(doc, k) == stored_field(text, k)
}

/// Whether a parsed settings document records the preference as on.
pub fn keep_awake_in(doc: &serde_json::Value) -> (r: bool)
    ensures
        r == (preference_entry(*doc) == Some(true)),
{
    match json_get(doc, "keep_awake") {
        Some(x) => match json_as_bool(x) {
            Some(b) => b,
            None => false,
        },
        None => false,
    }
}

/// Reads the preference from the stored settings text (`None` where there is no readable
/// file). Never fails: whatever cannot be read counts as off.
pub fn load_keep_awake(text: Option<&str>) -> (r: bool)
    ensures
        r == stored_preference(text),
{
    match text {
        Some(t) => match parse_json(t) {
            Ok(doc) => keep_awake_in(&doc),
            Err(_) => false,
        },
        None => false,
    }
}

/// The document that a save starts from: the stored one where it is a JSON object, an empty
/// object otherwise.
pub fn base_document(text: Option<&str>) -> (r: serde_json::Value)
    ensures
        json_is_object(r),
        forall|k: Seq<char>| #[trigger] json_field(r, k) == stored_field(text, k),
{
    match text {
        Some(t) => match parse_json(t) {
            Ok(doc) => {
                if json_test_object(&doc) {
                    doc
                } else {
                    empty_object()
                }
            },
            Err(_) => empty_object(),
        },
        None => empty_object(),
    }
}

/// Records `enabled` under the preference key of an object, keeping every other entry.
pub fn set_keep_awake(doc: &mut serde_json::Value, enabled: bool)
    requires
        json_is_object(*old(doc)),
    ensures
        json_is_object(*final(doc)),
        preference_entry(*final(doc)) == Some(enabled),
        forall|k: Seq<char>|
            k != keep_awake_key() ==> #[trigger] json_field(*final(doc), k) == json_field(
                *old(doc),
                k,
            ),
{
    json_put_bool(doc, "keep_awake", enabled);
}

/// The settings document after saving `enabled` over the stored text.
pub fn updated_document(text: Option<&str>, enabled: bool) -> (r: serde_json::Value)
    ensures
        saved_from(text, enabled, r),
{
    let mut doc = base_document(text);
    set_keep_awake(&mut doc, enabled);
    doc
}

/// The full text to write back when saving `enabled` over the stored text.
pub fn save_keep_awake(text: Option<&str>, enabled: bool) -> (r: Option<String>)
    ensures
        r is Some,
        r matches Some(s) ==> exists|doc: serde_json::Value|
            s@ == json_pretty(doc) && saved_from(text, enabled, doc),
{
    let doc = updated_document(text, enabled);
    match render_pretty(&doc) {
        Ok(s) => Some(s),
        Err(_) => None,
    }
}

} // verus!
