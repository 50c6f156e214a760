use std::path::PathBuf;
use vstd::prelude::*;

verus! {

/// The classes of operating-system failure that the guard tells apart.
#[derive(Debug, Clone, Copy, PartialEq, Eq, Structural)]
pub enum OsErrorKind {
    /// The directory does not exist (any more).
    NotFound,
    /// Any other failure, such as a permission that was taken away.
    Other,
}

/// A failure reported by the operating system for a directory query or
/// switch: its class and its text.
#[derive(Debug)]
pub struct OsError {
    pub kind: OsErrorKind,
    pub message: String,
}

impl OsError {
    /// Whether the failure says that the directory does not exist.
    pub fn is_not_found(&self) -> (r: bool)
        ensures
            r == (self.kind == OsErrorKind::NotFound),
    {
        self.kind == OsErrorKind::NotFound
    }
}

/// The errors that making or releasing a guard can give.
#[derive(Debug)]
pub enum PushdError {
    /// The current directory could not be read.
    GetCurrentDir { source: OsError },
    /// The current directory could not be changed to `path`.
    SetCurrentDir { path: PathBuf, source: OsError },
}

impl PushdError {
    /// The operating-system failure underneath this error.
    pub fn source(&self) -> (r: &OsError)
        ensures
            r == (match self {
                PushdError::GetCurrentDir { source } => source,
                PushdError::SetCurrentDir { source, .. } => source,
            }),
    {
        match self {
            PushdError::GetCurrentDir { source } => source,
            PushdError::SetCurrentDir { source, .. } => source,
        }
    }
}

impl From<OsError> for PushdError {
    /// A failed query of the current directory.
    fn from(source: OsError) -> (r: PushdError)
        ensures
            r == (PushdError::GetCurrentDir { source }),
    {
        PushdError::GetCurrentDir { source }
    }
}

impl vstd::std_specs::convert::FromSpecImpl<OsError> for PushdError {
    open spec fn obeys_from_spec() -> bool {
        true
    }

    open spec fn from_spec(source: OsError) -> PushdError {
        PushdError::GetCurrentDir { source }
    }
}

} // verus!
