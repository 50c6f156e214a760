use pushd::{ExitAction, OsError, OsErrorKind, Pushd, PushdError};
use std::path::PathBuf;

fn os_error(kind: OsErrorKind, message: &str) -> OsError {
    OsError { kind, message: message.to_string() }
}

fn denied() -> OsError {
    os_error(OsErrorKind::Other, "Permission denied (os error 13)")
}

fn vanished() -> OsError {
    os_error(OsErrorKind::NotFound, "No such file or directory (os error 2)")
}

#[test]
fn scope_exit_goes_back_to_work_dir() {
    let mut pd = Pushd::new(PathBuf::from("/work"), PathBuf::from("/tmp/x"), Ok(())).unwrap();
    assert_eq!(pd.original_dir(), &PathBuf::from("/work"));
    assert_eq!(pd.restore_target(), Some(&PathBuf::from("/work")));
    assert!(!pd.is_released());
    assert!(matches!(pd.on_scope_exit(Ok(())), ExitAction::Done));
    assert!(pd.is_released());
    assert_eq!(pd.restore_target(), None);
}

#[test]
fn failed_switch_gives_no_guard() {
    let r = Pushd::new(PathBuf::from("/work"), PathBuf::from("/missing"), Err(vanished()));
    match r {
        Err(PushdError::SetCurrentDir { path, source }) => {
            assert_eq!(path, PathBuf::from("/missing"));
            assert_eq!(source.kind, OsErrorKind::NotFound);
            assert_eq!(source.message, "No such file or directory (os error 2)");
        }
        _ => panic!("expected a SetCurrentDir error"),
    }
    let r = Pushd::new_no_panic(PathBuf::from("/work"), PathBuf::from("/locked"), Err(denied()));
    match r {
        Err(PushdError::SetCurrentDir { path, .. }) => assert_eq!(path, PathBuf::from("/locked")),
        _ => panic!("expected a SetCurrentDir error"),
    }
}

#[test]
fn failed_query_is_get_current_dir_error() {
    let e = PushdError::from(vanished());
    assert!(matches!(&e, PushdError::GetCurrentDir { .. }));
    assert!(e.source().is_not_found());
    assert_eq!(e.source().message, "No such file or directory (os error 2)");
}

#[test]
fn constructors_pick_the_policy() {
    let strict = Pushd::new(PathBuf::from("/a"), PathBuf::from("/b"), Ok(())).unwrap();
    assert!(strict.panics_on_error());
    let lenient = Pushd::new_no_panic(PathBuf::from("/a"), PathBuf::from("/b"), Ok(())).unwrap();
    assert!(!lenient.panics_on_error());
    assert_eq!(lenient.original_dir(), &PathBuf::from("/a"));
    assert!(!lenient.is_released());
}

#[test]
fn explicit_pop_then_scope_exit_restores_once() {
    let mut pd = Pushd::new(PathBuf::from("/work"), PathBuf::from("/tmp/x"), Ok(())).unwrap();
    assert!(pd.pop(Ok(())).is_ok());
    assert!(pd.is_released());
    assert_eq!(pd.restore_target(), None);
    assert!(pd.pop(Err(denied())).is_ok());
    assert!(matches!(pd.on_scope_exit(Err(denied())), ExitAction::Done));
    assert!(pd.is_released());
}

#[test]
fn failed_pop_can_be_retried() {
    let mut pd = Pushd::new(PathBuf::from("/work"), PathBuf::from("/tmp/x"), Ok(())).unwrap();
    match pd.pop(Err(denied())) {
        Err(PushdError::SetCurrentDir { path, source }) => {
            assert_eq!(path, PathBuf::from("/work"));
            assert!(source.message.contains("Permission denied"));
        }
        _ => panic!("expected a SetCurrentDir error"),
    }
    assert!(!pd.is_released());
    assert_eq!(pd.restore_target(), Some(&PathBuf::from("/work")));
    assert!(pd.pop(Ok(())).is_ok());
    assert!(pd.is_released());
}

#[test]
fn strict_exit_ignores_vanished_original() {
    let mut pd = Pushd::new(PathBuf::from("/tmp/one"), PathBuf::from("/tmp/two"), Ok(())).unwrap();
    assert!(matches!(pd.on_scope_exit(Err(vanished())), ExitAction::Done));
    assert!(!pd.is_released());
}

#[test]
fn strict_exit_panics_on_permission_error() {
    let mut pd = Pushd::new(PathBuf::from("/tmp/one"), PathBuf::from("/tmp/two"), Ok(())).unwrap();
    match pd.on_scope_exit(Err(denied())) {
        ExitAction::Panic(PushdError::SetCurrentDir { path, source }) => {
            assert_eq!(path, PathBuf::from("/tmp/one"));
            assert!(source.message.contains("Permission denied"));
        }
        _ => panic!("expected a Panic action"),
    }
    assert!(!pd.is_released());
}

#[test]
fn lenient_exit_warns_on_permission_error() {
    let mut pd = Pushd::new_no_panic(PathBuf::from("/tmp/one"), PathBuf::from("/tmp/two"), Ok(())).unwrap();
    match pd.on_scope_exit(Err(denied())) {
        ExitAction::Warn(PushdError::SetCurrentDir { path, source }) => {
            assert_eq!(path, PathBuf::from("/tmp/one"));
            assert!(source.message.contains("Permission denied"));
        }
        _ => panic!("expected a Warn action"),
    }
    assert!(!pd.is_released());
}

#[test]
fn lenient_exit_warns_on_vanished_original() {
    let mut pd = Pushd::new_no_panic(PathBuf::from("/tmp/one"), PathBuf::from("/tmp/two"), Ok(())).unwrap();
    match pd.on_scope_exit(Err(vanished())) {
        ExitAction::Warn(e) => assert!(e.source().is_not_found()),
        _ => panic!("expected a Warn action"),
    }
}

#[test]
fn error_source_and_kind() {
    assert!(vanished().is_not_found());
    assert!(!denied().is_not_found());
    let e = PushdError::SetCurrentDir { path: PathBuf::from("/x"), source: denied() };
    assert_eq!(e.source().kind, OsErrorKind::Other);
}
