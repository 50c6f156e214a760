//! A scoped guard over the process's current directory.
//!
//! A [`Pushd`] remembers the directory that was current when it was made and
//! the policy to apply when going back there fails. The operating system is
//! reached by the caller: each operation of the guard takes what the last
//! directory query or switch reported and says what comes next, so that the
//! decisions (when a restore is owed, that it happens at most once, and how a
//! failed restore at scope exit is handled) are proved here.
mod error;
mod guard;
pub mod laws;
mod path;

pub use error::{OsError, OsErrorKind, PushdError};
pub use guard::{made, ExitAction, GuardModel, Pushd};
