//! Properties of a guard's life that span several operations.
use crate::error::{OsError, OsErrorKind, PushdError};
use crate::guard::{made, ExitAction, GuardModel};
use std::path::PathBuf;
use vstd::prelude::*;

verus! {

/// A guard made from `orig` that reaches scope exit without an explicit
/// release switches back to `orig` there, and once that switch succeeds
/// nothing more is owed and nothing is reported.
pub proof fn lemma_scope_exit_restores_original(orig: PathBuf, target: PathBuf, strict: bool)
    ensures
        made(orig, target, Ok(()), strict) is Ok,
        made(orig, target, Ok(()), strict)->Ok_0.pending() == Some(orig),
        made(orig, target, Ok(()), strict)->Ok_0.exit_action(Ok(())) == ExitAction::Done,
        made(orig, target, Ok(()), strict)->Ok_0.after_pop(Ok(())).pending() is None,
{
}

/// After a successful release, every later release or scope exit is a
/// no-op: no switch is owed, whatever is reported nothing changes, and
/// nothing fails.
pub proof fn lemma_release_happens_once(g: GuardModel, later: Result<(), OsError>)
    ensures
        g.pop_result(Ok(())) is Ok,
        g.after_pop(Ok(())).pending() is None,
        g.after_pop(Ok(())).pop_result(later) is Ok,
        g.after_pop(Ok(())).after_pop(later) == g.after_pop(Ok(())),
        g.after_pop(Ok(())).exit_action(later) == ExitAction::Done,
{
}

/// A strict guard whose original directory has vanished lets the failed
/// switch back pass silently at scope exit and stays where it was.
pub proof fn lemma_strict_exit_ignores_vanished_original(g: GuardModel, e: OsError)
    requires
        g.strict,
        e.kind == OsErrorKind::NotFound,
    ensures
        g.exit_action(Err(e)) == ExitAction::Done,
        g.after_pop(Err(e)) == g,
{
}

/// A strict guard whose switch back fails for any other reason aborts the
/// flow at scope exit with an error that names the original directory and
/// carries the operating system's failure.
pub proof fn lemma_strict_exit_panics_on_other_failure(g: GuardModel, e: OsError)
    requires
        g.strict,
        !g.released,
        e.kind != OsErrorKind::NotFound,
    ensures
        g.exit_action(Err(e)) == ExitAction::Panic(PushdError::SetCurrentDir { path: g.orig, source: e }),
        g.after_pop(Err(e)) == g,
{
}

/// A lenient guard whose switch back fails, for whatever reason, only
/// warns at scope exit, with the same error, and stays where it was.
pub proof fn lemma_lenient_exit_warns(g: GuardModel, e: OsError)
    requires
        !g.strict,
        !g.released,
    ensures
        g.exit_action(Err(e)) == ExitAction::Warn(PushdError::SetCurrentDir { path: g.orig, source: e }),
        g.after_pop(Err(e)) == g,
{
}

} // verus!
