use crate::error::{OsError, OsErrorKind, PushdError};
use std::path::PathBuf;
use vstd::prelude::*;

verus! {

/// What a guard is, as far as its contracts are concerned.
pub struct GuardModel {
    /// The directory that was current when the guard was made.
    pub orig: PathBuf,
    /// Whether a failed restore at scope exit may abort the flow.
    pub strict: bool,
    /// Whether the original directory has been restored.
    pub released: bool,
}

/// What the owner of a guard has to do once its scope ends.
#[derive(Debug)]
pub enum ExitAction {
    /// Nothing: the directory was restored, or no restore was owed, or the
    /// original directory is gone and a strict guard lets that pass.
    Done,
    /// Report the failed restore as a warning and go on.
    Warn(PushdError),
    /// Abort the flow with the failed restore's message.
    Panic(PushdError),
}

/// The guard that a construction whose switch to `target` reported
/// `switched` gives, or its error.
pub open spec fn made(orig: PathBuf, target: PathBuf, switched: Result<(), OsError>, strict: bool) -> Result<GuardModel, PushdError> {
    match switched {
        Ok(()) => Ok(GuardModel { orig, strict, released: false }),
        Err(e) => Err(PushdError::SetCurrentDir { path: target, source: e }),
    }
}

impl GuardModel {
    /// The directory that a release still has to switch back to, if any.
    pub open spec fn pending(self) -> Option<PathBuf> {
        if self.released {
            None
        } else {
            Some(self.orig)
        }
    }

    /// The state after a release whose switch back reported `restored`.
    pub open spec fn after_pop(self, restored: Result<(), OsError>) -> GuardModel {
        if !self.released && restored is Ok {
            GuardModel { orig: self.orig, strict: self.strict, released: true }
        } else {
            self
        }
    }

    /// What a release whose switch back reported `restored` returns.
    pub open spec fn pop_result(self, restored: Result<(), OsError>) -> Result<(), PushdError> {
        if self.released {
            Ok(())
        } else {
            match restored {
                Ok(()) => Ok(()),
                Err(e) => Err(PushdError::SetCurrentDir { path: self.orig, source: e }),
            }
        }
    }

    /// What is to be done at scope exit when the switch back reported
    /// `restored`.
    pub open spec fn exit_action(self, restored: Result<(), OsError>) -> ExitAction {
        match self.pop_result(restored) {
            Ok(()) => ExitAction::Done,
            Err(e) => if !self.strict {
                ExitAction::Warn(e)
            } else if restored matches Err(os) && os.kind == OsErrorKind::NotFound {
                ExitAction::Done
            } else {
                ExitAction::Panic(e)
            },
        }
    }
}

/// A guard that has moved the process into another directory and owes a
/// switch back to the directory that was current before.
///
/// The guard never touches the operating system itself. Its owner queries
/// the current directory, switches to the target, and builds the guard from
/// what that switch reported. To release, the owner switches to
/// [`Pushd::restore_target`] when it names a directory and hands the outcome
/// to [`Pushd::pop`]; at scope exit it does the same through
/// [`Pushd::on_scope_exit`] and carries out the [`ExitAction`] it returns.
pub struct Pushd {
    orig: PathBuf,
    panic_on_err: bool,
    popped: bool,
}

impl View for Pushd {
    type V = GuardModel;

    closed spec fn view(&self) -> GuardModel {
        GuardModel { orig: self.orig, strict: self.panic_on_err, released: self.popped }
    }
}

impl Pushd {
    /// Makes a strict guard: `orig` is the directory that was current, and
    /// `switched` what the switch to `target` reported. A failed switch gives
    /// no guard but an error naming `target`.
    pub fn new(orig: PathBuf, target: PathBuf, switched: Result<(), OsError>) -> (r: Result<Pushd, PushdError>)
        ensures
            r is Ok <==> switched is Ok,
            r matches Ok(g) ==> g@ == (GuardModel { orig, strict: true, released: false }),
            r matches Err(e) ==> e == (PushdError::SetCurrentDir { path: target, source: switched->Err_0 }),
    {
        match switched {
            Ok(()) => Ok(Pushd { orig, panic_on_err: true, popped: false }),
            Err(e) => Err(PushdError::SetCurrentDir { path: target, source: e }),
        }
    }

    /// Makes a lenient guard, which at scope exit only warns when it cannot
    /// go back. Otherwise as [`Pushd::new`].
    pub fn new_no_panic(orig: PathBuf, target: PathBuf, switched: Result<(), OsError>) -> (r: Result<Pushd, PushdError>)
        ensures
            r is Ok <==> switched is Ok,
            r matches Ok(g) ==> g@ == (GuardModel { orig, strict: false, released: false }),
            r matches Err(e) ==> e == (PushdError::SetCurrentDir { path: target, source: switched->Err_0 }),
    {
        let mut pd = match Self::new(orig, target, switched) {
            Ok(pd) => pd,
            Err(e) => return Err(e),
        };
        pd.panic_on_err = false;
        Ok(pd)
    }

    /// The directory that was current when the guard was made.
    pub fn original_dir(&self) -> (r: &PathBuf)
        ensures
            *r == self@.orig,
    {
        &self.orig
    }

    /// Whether a failed restore at scope exit may abort the flow.
    pub fn panics_on_error(&self) -> (r: bool)
        ensures
            r == self@.strict,
    {
        self.panic_on_err
    }

    /// Whether the original directory has been restored.
    pub fn is_released(&self) -> (r: bool)
        ensures
            r == self@.released,
    {
        self.popped
    }

    /// The directory that a release has to switch back to, or `None` once
    /// the guard is released and nothing more is owed.
    pub fn restore_target(&self) -> (r: Option<&PathBuf>)
        ensures
            match r {
                Some(p) => self@.pending() == Some(*p),
                None => self@.pending() is None,
            },
    {
        if self.popped {
            None
        } else {
            Some(&self.orig)
        }
    }

    /// Releases the guard. `restored` is what the switch to
    /// [`Pushd::restore_target`] reported; once the guard is released no
    /// switch is owed, `restored` is not looked at and nothing changes.
    /// A failed switch leaves the guard unreleased, so it may be retried.
    pub fn pop(&mut self, restored: Result<(), OsError>) -> (r: Result<(), PushdError>)
        ensures
            final(self)@ == old(self)@.after_pop(restored),
            r == old(self)@.pop_result(restored),
    {
        if self.popped {
            return Ok(());
        }
        match restored {
            Ok(()) => {
                self.popped = true;
                Ok(())
            },
            Err(e) => Err(PushdError::SetCurrentDir { path: self.orig.clone(), source: e }),
        }
    }

    /// Releases the guard at scope exit, where no caller can take an error:
    /// `restored` is as for [`Pushd::pop`], and the result says how a
    /// failure is to be handled under the guard's policy.
    pub fn on_scope_exit(&mut self, restored: Result<(), OsError>) -> (r: ExitAction)
        ensures
            final(self)@ == old(self)@.after_pop(restored),
            r == old(self)@.exit_action(restored),
    {
        match self.pop(restored) {
            Ok(()) => ExitAction::Done,
            Err(e) => {
                if !self.panic_on_err {
                    ExitAction::Warn(e)
                } else if e.source().is_not_found() {
                    ExitAction::Done
                } else {
                    ExitAction::Panic(e)
                }
            },
        }
    }
}

} // verus!
