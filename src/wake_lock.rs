//! The keep-awake manager: a hold count shared by automatic callers and the user's toggle,
//! and the inhibition handle that is held while the count is above zero.
//!
//! All of the manager's state is one value, changed through `&mut self`: a caller that
//! shares it between threads puts the whole manager behind a single lock, so that reading
//! the count and creating or dropping the handle happen in one critical section.

use vstd::prelude::*;
use crate::preference::{load_keep_awake, stored_preference};

verus! {

#[verifier::external_type_specification]
#[verifier::external_body]
pub struct ExKeepAwake(keepawake::KeepAwake);

#[verifier::external_type_specification]
#[verifier::external_body]
pub struct ExKeepAwakeError(keepawake::Error);

/// Relies on `keepawake::Builder::create`, set to keep the system from idle sleep and to leave
/// the display alone. Whether the platform grants the handle depends on the machine, so
/// nothing is stated of the outcome.
#[verifier::external_body]
fn create_idle_inhibition() -> (r: Result<keepawake::KeepAwake, keepawake::Error>) {
    keepawake::Builder::default().display(false).idle(true).create()
}

/// The manager's state as the contracts see it.
pub struct WakeLockView<H> {
    /// Outstanding holds, automatic and user's together.
    pub count: nat,
    /// The inhibition handle, while one is held.
    pub handle: Option<H>,
    /// Whether the user's toggle is on.
    pub user_enabled: bool,
    /// Where the preference is kept, once set.
    pub location: Option<Seq<char>>,
}

impl<H> WakeLockView<H> {
    /// Whether an inhibition handle is held.
    pub open spec fn held(self) -> bool {
        self.handle is Some
    }
}

/// The idle state a manager starts in: no holds, no handle, toggle off, no location.
pub open spec fn is_pristine<H>(v: WakeLockView<H>) -> bool {
    &&& v.count == 0
    &&& !v.held()
    &&& !v.user_enabled
    &&& v.location is None
}

/// A handle is held only while some hold is outstanding.
pub open spec fn handle_only_when_counted<H>(v: WakeLockView<H>) -> bool {
    v.held() ==> v.count > 0
}

/// A handle is held exactly while some hold is outstanding; only a refused handle creation
/// breaks this.
pub open spec fn handle_iff_counted<H>(v: WakeLockView<H>) -> bool {
    v.held() <==> v.count > 0
}

/// The count after one release: one less, but never below zero.
pub open spec fn released_count(c: nat) -> nat {
    if c == 0 {
        0
    } else {
        (c - 1) as nat
    }
}

/// The count after one hold (`true`) or one release (`false`).
pub open spec fn count_step(c: nat, acquire: bool) -> nat {
    if acquire {
        c + 1
    } else {
        released_count(c)
    }
}

/// The count after a sequence of holds (`true`) and releases (`false`) from `start`.
pub open spec fn count_after(start: nat, ops: Seq<bool>) -> nat
    decreases ops.len(),
{
    if ops.len() == 0 {
        start
    } else {
        count_step(count_after(start, ops.drop_last()), ops.last())
    }
}

/// What one user toggle does to the pair (count, toggle flag).
pub open spec fn toggled(count: nat, enabled: bool) -> (nat, bool) {
    if enabled {
        (released_count(count), false)
    } else {
        (count + 1, true)
    }
}

/// The shared keep-awake lock. `H` is the type of the inhibition handle.
pub struct WakeLockState<H> {
    count: u32,
    guard: Option<H>,
    user_enabled: bool,
    data_dir: Option<String>,
}

impl<H> WakeLockState<H> {
    /// A handle is kept only while a hold is counted.
    #[verifier::type_invariant]
    closed spec fn inv(self) -> bool {
        self.guard is Some ==> self.count > 0
    }
}

impl<H> View for WakeLockState<H> {
    type V = WakeLockView<H>;

    closed spec fn view(&self) -> WakeLockView<H> {
        WakeLockView {
            count: self.count as nat,
            handle: self.guard,
            user_enabled: self.user_enabled,
            location: match self.data_dir {
                Some(d) => Some(d@),
                None => None,
            },
        }
    }
}

impl<H> Default for WakeLockState<H> {
    fn default() -> (r: Self)
        ensures
            is_pristine(r@),
    {
        WakeLockState { count: 0, guard: None, user_enabled: false, data_dir: None }
    }
}

impl<H> WakeLockState<H> {
    /// A manager in the idle state.
    pub fn new() -> (r: Self)
        ensures
            is_pristine(r@),
    {
        WakeLockState { count: 0, guard: None, user_enabled: false, data_dir: None }
    }

    /// The number of outstanding holds.
    pub fn active_count(&self) -> (r: u32)
        ensures
            r as nat == self@.count,
    {
        self.count
    }

    /// Whether an inhibition handle is held.
    pub fn is_held(&self) -> (r: bool)
        ensures
            r == self@.held(),
    {
        self.guard.is_some()
    }

    /// The inhibition handle, while one is held.
    pub fn held_handle(&self) -> (r: Option<&H>)
        ensures
            match r {
                Some(h) => self@.handle == Some(*h),
                None => self@.handle is None,
            },
    {
        self.guard.as_ref()
    }

    /// Whether the user has switched keep-awake on.
    pub fn is_user_enabled(&self) -> (r: bool)
        ensures
            r == self@.user_enabled,
    {
        self.user_enabled
    }

    /// Where the preference is kept, once `init` has set it.
    pub fn preference_location(&self) -> (r: Option<&String>)
        ensures
            match r {
                Some(d) => self@.location == Some(d@),
                None => self@.location is None,
            },
    {
        self.data_dir.as_ref()
    }

    /// Whether the next hold is the first one, which asks the platform for a handle.
    pub fn needs_handle(&self) -> (r: bool)
        ensures
            r == (self@.count == 0),
    {
        self.count == 0
    }

    /// Counts one more hold. `created` is the outcome of the handle creation that the first
    /// hold asks for: it is kept on the transition from zero and dropped otherwise. Where the
    /// creation failed the count still grows, and the lock is held without a handle.
    pub fn record_acquire(&mut self, created: Option<H>)
        requires
            old(self)@.count < u32::MAX,
        ensures
            final(self)@.count == count_step(old(self)@.count, true),
            final(self)@.handle == if old(self)@.count == 0 {
                created
            } else {
                old(self)@.handle
            },
            final(self)@.user_enabled == old(self)@.user_enabled,
            final(self)@.location == old(self)@.location,
            handle_only_when_counted(final(self)@),
            handle_iff_counted(old(self)@) && (old(self)@.count > 0 || created is Some)
                ==> handle_iff_counted(final(self)@),
    {
        proof {
            use_type_invariant(&*self);
        }
        self.count = self.count + 1;
        if self.count == 1 {
            self.guard = created;
        }
    }

    /// Gives up one hold, never going below zero. When no hold is left the handle is
    /// dropped, which lets the machine sleep again.
    pub fn decrement(&mut self)
        ensures
            final(self)@.count == count_step(old(self)@.count, false),
            final(self)@.handle == if final(self)@.count > 0 {
                old(self)@.handle
            } else {
                None
            },
            final(self)@.user_enabled == old(self)@.user_enabled,
            final(self)@.location == old(self)@.location,
            handle_only_when_counted(final(self)@),
            handle_iff_counted(old(self)@) ==> handle_iff_counted(final(self)@),
    {
        proof {
            use_type_invariant(&*self);
        }
        if self.count <= 1 {
            self.guard = None;
        }
        self.count = self.count.saturating_sub(1);
    }

    /// Returns to the idle state whatever holds are outstanding, dropping the handle. The
    /// stored preference and its location are left alone.
    pub fn release_all(&mut self)
        ensures
            final(self)@.count == 0,
            !final(self)@.held(),
            !final(self)@.user_enabled,
            final(self)@.location == old(self)@.location,
            handle_iff_counted(final(self)@),
    {
        self.guard = None;
        self.count = 0;
        self.user_enabled = false;
    }
}

impl WakeLockState<keepawake::KeepAwake> {
    /// Counts one more hold; the first one asks the platform for an inhibition handle. A
    /// refused handle leaves the count grown and the lock held without a handle.
    pub fn increment(&mut self)
        requires
            old(self)@.count < u32::MAX,
        ensures
            final(self)@.count == old(self)@.count + 1,
            old(self)@.count > 0 ==> final(self)@.handle == old(self)@.handle,
            final(self)@.user_enabled == old(self)@.user_enabled,
            final(self)@.location == old(self)@.location,
            handle_only_when_counted(final(self)@),
            handle_iff_counted(old(self)@) && (old(self)@.count > 0 || final(self)@.held())
                ==> handle_iff_counted(final(self)@),
    {
        let created = if self.needs_handle() {
            match create_idle_inhibition() {
                Ok(g) => Some(g),
                Err(_) => None,
            }
        } else {
            None
        };
        self.record_acquire(created);
    }

    /// Sets where the preference is kept and restores it from the stored settings text
    /// (`None` where none could be read). A stored "on" switches the toggle on and takes a
    /// hold; nothing is written back.
    pub fn init(&mut self, data_dir: String, stored: Option<&str>)
        requires
            stored_preference(stored) ==> old(self)@.count < u32::MAX,
        ensures
            final(self)@.location == Some(data_dir@),
            final(self)@.user_enabled == (old(self)@.user_enabled || stored_preference(stored)),
            final(self)@.count == if stored_preference(stored) {
                old(self)@.count + 1
            } else {
                old(self)@.count
            },
            !stored_preference(stored) ==> final(self)@.handle == old(self)@.handle,
            old(self)@.count > 0 ==> final(self)@.handle == old(self)@.handle,
            handle_only_when_counted(final(self)@),
            handle_iff_counted(old(self)@) && (old(self)@.count > 0 || final(self)@.held()
                || !stored_preference(stored)) ==> handle_iff_counted(final(self)@),
    {
        proof {
            use_type_invariant(&*self);
        }
        self.data_dir = Some(data_dir);
        if load_keep_awake(stored) {
            self.user_enabled = true;
            self.increment();
        }
    }

    /// Flips the user's toggle: switching on takes a hold, switching off gives one up.
    /// Returns the new setting, which the caller persists at the preference location.
    pub fn user_toggle(&mut self) -> (r: bool)
        requires
            old(self)@.user_enabled || old(self)@.count < u32::MAX,
        ensures
            r == final(self)@.user_enabled,
            (final(self)@.count, final(self)@.user_enabled) == toggled(
                old(self)@.count,
                old(self)@.user_enabled,
            ),
            final(self)@.location == old(self)@.location,
            old(self)@.user_enabled ==> final(self)@.handle == if final(self)@.count > 0 {
                old(self)@.handle
            } else {
                None
            },
            !old(self)@.user_enabled && old(self)@.count > 0 ==> final(self)@.handle
                == old(self)@.handle,
            handle_only_when_counted(final(self)@),
            handle_iff_counted(old(self)@) && (old(self)@.count > 0 || final(self)@.held())
                ==> handle_iff_counted(final(self)@),
    {
        proof {
            use_type_invariant(&*self);
        }
        if self.user_enabled {
            self.user_enabled = false;
            self.decrement();
        } else {
            self.user_enabled = true;
            self.increment();
        }
        self.user_enabled
    }
}

/// Takes one automatic hold. Always succeeds.
pub fn acquire_wake_lock(state: &mut WakeLockState<keepawake::KeepAwake>) -> (r: Result<(), String>)
    requires
        old(state)@.count < u32::MAX,
    ensures
        r is Ok,
        final(state)@.count == old(state)@.count + 1,
        old(state)@.count > 0 ==> final(state)@.handle == old(state)@.handle,
        final(state)@.user_enabled == old(state)@.user_enabled,
        final(state)@.location == old(state)@.location,
        handle_only_when_counted(final(state)@),
{
    state.increment();
    Ok(())
}

/// Gives up one automatic hold. Always succeeds.
pub fn release_wake_lock(state: &mut WakeLockState<keepawake::KeepAwake>) -> (r: Result<(), String>)
    ensures
        r is Ok,
        final(state)@.count == released_count(old(state)@.count),
        final(state)@.handle == if final(state)@.count > 0 {
            old(state)@.handle
        } else {
            None
        },
        final(state)@.user_enabled == old(state)@.user_enabled,
        final(state)@.location == old(state)@.location,
        handle_only_when_counted(final(state)@),
{
    state.decrement();
    Ok(())
}

/// Toggling twice gives back the count and the toggle flag, wherever the user's hold is
/// still counted (an on toggle with at least one hold outstanding).
pub proof fn lemma_toggle_twice_restores(count: nat, enabled: bool)
    requires
        enabled ==> count >= 1,
    ensures
        toggled(toggled(count, enabled).0, toggled(count, enabled).1) == (count, enabled),
{
}

/// Whatever the order of holds and releases, the count never goes below zero, and it is at
/// most the starting count plus the number of calls.
pub proof fn lemma_count_after_sequence(start: nat, ops: Seq<bool>)
    ensures
        count_after(start, ops) >= 0,
        count_after(start, ops) <= start + ops.len(),
    decreases ops.len(),
{
    if ops.len() > 0 {
        lemma_count_after_sequence(start, ops.drop_last());
    }
}

} // verus!
