//! A reference-counted keep-awake lock: automatic holds and a user toggle share one
//! platform inhibition handle, and the user's choice is kept in a JSON settings document.

pub mod preference;
pub mod wake_lock;
pub mod commands;
