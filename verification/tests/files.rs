use rust_install::errors::Error;
use rust_install::notify::{Notification, NotifyHandler};
use rust_install::raw::{Attempt, Mode, Step};
use rust_install::utils::{
    append_file, assert_is_directory, assert_is_file, canonicalize_path, copy_dir, copy_file,
    ensure_dir_exists, get_local_data_path, hardlink_file, make_executable, open_browser,
    read_dir, read_file, remove_dir, remove_file, rename_dir, rename_file, set_permissions,
    symlink_dir, symlink_file, write_file, EXECUTABLE_BITS,
};
use std::io;
use std::path::PathBuf;

fn denied() -> io::Error {
    io::Error::new(io::ErrorKind::PermissionDenied, "denied")
}

fn done<T>(step: Step<T>) -> Result<T, Error> {
    match step {
        Step::Done(result) => result,
        Step::Proceed => panic!("the operation is not over"),
    }
}

#[test]
fn ensure_dir_exists_twice_creates_once() {
    let path = PathBuf::from("/tmp/toolchains");
    let mut sink = NotifyHandler::new();
    let mut is_dir = false;

    let first = ensure_dir_exists("toolchains", &path, is_dir, Attempt::Pending, &mut sink);
    assert!(matches!(first, Step::Proceed));
    assert_eq!(sink.take(), vec![Notification::CreatingDirectory("toolchains", path.clone())]);
    is_dir = true;
    let first = ensure_dir_exists("toolchains", &path, false, Attempt::Made(Ok(())), &mut sink);
    assert!(matches!(done(first), Ok(true)));

    let second = ensure_dir_exists("toolchains", &path, is_dir, Attempt::Pending, &mut sink);
    assert!(matches!(done(second), Ok(false)));
    assert_eq!(sink.pending(), 0);
}

#[test]
fn ensure_dir_exists_reports_the_cause() {
    let path = PathBuf::from("/proc/nowhere");
    let mut sink = NotifyHandler::new();
    let step = ensure_dir_exists("cache", &path, false, Attempt::Made(Err(denied())), &mut sink);
    match done(step) {
        Err(Error::CreatingDirectory { name, path: at, error }) => {
            assert_eq!(name, "cache");
            assert_eq!(at, path);
            assert_eq!(error.kind(), io::ErrorKind::PermissionDenied);
        }
        other => panic!("unexpected: {:?}", other),
    }
    assert_eq!(sink.pending(), 0);
}

#[test]
fn ensure_dir_exists_ignores_the_attempt_when_present() {
    let path = PathBuf::from("/tmp");
    let mut sink = NotifyHandler::new();
    let step = ensure_dir_exists("tmp", &path, true, Attempt::Made(Err(denied())), &mut sink);
    assert!(matches!(done(step), Ok(false)));
    assert_eq!(sink.pending(), 0);
}

#[test]
fn write_then_read_round_trips() {
    let path = PathBuf::from("settings.toml");
    for content in ["", "one\ntwo\n", "no newline", "caf\u{e9} \u{1F980}\r\n"] {
        assert!(write_file("settings", &path, Ok(())).is_ok());
        let read = read_file("settings", &path, Ok(String::from(content)));
        assert_eq!(read.unwrap().as_bytes(), content.as_bytes());
    }
}

#[test]
fn read_file_reports_the_cause() {
    let path = PathBuf::from("missing.toml");
    let cause = io::Error::new(io::ErrorKind::NotFound, "gone");
    let failed = read_file("settings", &path, Err(cause));
    assert_eq!(
        failed.as_ref().unwrap_err().cause().map(|cause| cause.kind()),
        Some(io::ErrorKind::NotFound)
    );
    match failed {
        Err(Error::ReadingFile { name, path: at, error }) => {
            assert_eq!(name, "settings");
            assert_eq!(at, path);
            assert_eq!(error.kind(), io::ErrorKind::NotFound);
        }
        other => panic!("unexpected: {:?}", other),
    }
}

#[test]
fn write_and_append_share_an_error() {
    let path = PathBuf::from("env");
    assert!(matches!(
        write_file("env", &path, Err(denied())),
        Err(Error::WritingFile { name: "env", .. })
    ));
    match append_file("env", &path, Err(denied())) {
        Err(Error::WritingFile { name, path: at, error }) => {
            assert_eq!(name, "env");
            assert_eq!(at, path);
            assert_eq!(error.kind(), io::ErrorKind::PermissionDenied);
        }
        other => panic!("unexpected: {:?}", other),
    }
    assert!(append_file("env", &path, Ok(())).is_ok());
}

#[test]
fn rename_errors_name_both_paths() {
    let src = PathBuf::from("a");
    let dest = PathBuf::from("b");
    assert!(rename_file("bin", &src, &dest, Ok(())).is_ok());
    assert!(rename_dir("bin", &src, &dest, Ok(())).is_ok());
    match rename_file("bin", &src, &dest, Err(denied())) {
        Err(Error::RenamingFile { name, src: from, dest: to, error }) => {
            assert_eq!(name, "bin");
            assert_eq!(from, src);
            assert_eq!(to, dest);
            assert_eq!(error.kind(), io::ErrorKind::PermissionDenied);
        }
        other => panic!("unexpected: {:?}", other),
    }
    match rename_dir("bin", &src, &dest, Err(denied())) {
        Err(Error::RenamingDirectory { name, src: from, dest: to, error }) => {
            assert_eq!(name, "bin");
            assert_eq!(from, src);
            assert_eq!(to, dest);
            assert_eq!(error.kind(), io::ErrorKind::PermissionDenied);
        }
        other => panic!("unexpected: {:?}", other),
    }
}

#[test]
fn remove_file_reports_the_cause() {
    let path = PathBuf::from("stale.lock");
    assert!(remove_file("lock", &path, Ok(())).is_ok());
    match remove_file("lock", &path, Err(denied())) {
        Err(Error::RemovingFile { name, path: at, error }) => {
            assert_eq!(name, "lock");
            assert_eq!(at, path);
            assert_eq!(error.kind(), io::ErrorKind::PermissionDenied);
        }
        other => panic!("unexpected: {:?}", other),
    }
}

#[test]
fn remove_dir_notifies_before_the_attempt() {
    let path = PathBuf::from("old");
    let mut sink = NotifyHandler::new();
    let step = remove_dir("old", &path, Attempt::Pending, &mut sink);
    assert!(matches!(step, Step::Proceed));
    assert_eq!(sink.take(), vec![Notification::RemovingDirectory("old", path.clone())]);

    let step = remove_dir("old", &path, Attempt::Made(Ok(())), &mut sink);
    assert!(matches!(done(step), Ok(())));
    assert_eq!(sink.pending(), 0);

    let step = remove_dir("old", &path, Attempt::Made(Err(denied())), &mut sink);
    match done(step) {
        Err(Error::RemovingDirectory { name, path: at, error }) => {
            assert_eq!(name, "old");
            assert_eq!(at, path);
            assert_eq!(error.kind(), io::ErrorKind::PermissionDenied);
        }
        other => panic!("unexpected: {:?}", other),
    }
    assert_eq!(sink.pending(), 0);
}

#[test]
fn read_dir_hands_the_entries_on() {
    let path = PathBuf::from("dir");
    let entries = vec![PathBuf::from("dir/a"), PathBuf::from("dir/b")];
    assert_eq!(read_dir("dir", &path, Ok(entries.clone())).unwrap(), entries);
    assert!(read_dir("dir", &path, Ok(Vec::new())).unwrap().is_empty());
    match read_dir("dir", &path, Err(denied())) {
        Err(Error::ReadingDirectory { name, path: at, error }) => {
            assert_eq!(name, "dir");
            assert_eq!(at, path);
            assert_eq!(error.kind(), io::ErrorKind::PermissionDenied);
        }
        other => panic!("unexpected: {:?}", other),
    }
}

#[test]
fn links_collapse_to_one_error() {
    let src = PathBuf::from("target");
    let dest = PathBuf::from("link");
    assert!(symlink_file(&src, &dest, true).is_ok());
    assert!(hardlink_file(&src, &dest, true).is_ok());
    match symlink_file(&src, &dest, false) {
        Err(Error::LinkingFile(from, to)) => {
            assert_eq!(from, src);
            assert_eq!(to, dest);
        }
        other => panic!("unexpected: {:?}", other),
    }
    match hardlink_file(&src, &dest, false) {
        Err(Error::LinkingFile(from, to)) => {
            assert_eq!(from, src);
            assert_eq!(to, dest);
        }
        other => panic!("unexpected: {:?}", other),
    }
}

#[test]
fn symlink_dir_notifies_before_the_attempt() {
    let src = PathBuf::from("target");
    let dest = PathBuf::from("link");
    let mut sink = NotifyHandler::new();
    assert!(matches!(symlink_dir(&src, &dest, Attempt::Pending, &mut sink), Step::Proceed));
    assert_eq!(sink.take(), vec![Notification::LinkingDirectory(src.clone(), dest.clone())]);
    assert!(matches!(done(symlink_dir(&src, &dest, Attempt::Made(true), &mut sink)), Ok(())));
    match done(symlink_dir(&src, &dest, Attempt::Made(false), &mut sink)) {
        Err(Error::LinkingDirectory(from, to)) => {
            assert_eq!(from, src);
            assert_eq!(to, dest);
        }
        other => panic!("unexpected: {:?}", other),
    }
    assert_eq!(sink.pending(), 0);
}

#[test]
fn copy_dir_notifies_before_the_attempt() {
    let src = PathBuf::from("from");
    let dest = PathBuf::from("to");
    let mut sink = NotifyHandler::new();
    assert!(matches!(copy_dir(&src, &dest, Attempt::Pending, &mut sink), Step::Proceed));
    assert_eq!(sink.take(), vec![Notification::CopyingDirectory(src.clone(), dest.clone())]);
    assert!(matches!(done(copy_dir(&src, &dest, Attempt::Made(true), &mut sink)), Ok(())));
    match done(copy_dir(&src, &dest, Attempt::Made(false), &mut sink)) {
        Err(Error::CopyingDirectory(from, to)) => {
            assert_eq!(from, src);
            assert_eq!(to, dest);
        }
        other => panic!("unexpected: {:?}", other),
    }
    assert_eq!(sink.pending(), 0);
}

#[test]
fn copy_file_drops_the_cause() {
    let src = PathBuf::from("from");
    let dest = PathBuf::from("to");
    assert!(copy_file(&src, &dest, Ok(0)).is_ok());
    assert!(copy_file(&src, &dest, Ok(4096)).is_ok());
    match copy_file(&src, &dest, Err(denied())) {
        Err(Error::CopyingFile(from, to)) => {
            assert_eq!(from, src);
            assert_eq!(to, dest);
        }
        other => panic!("unexpected: {:?}", other),
    }
}

#[test]
fn assert_is_file_on_a_directory_fails() {
    let dir = PathBuf::from("/tmp");
    match assert_is_file(&dir, false) {
        Err(Error::NotAFile { path }) => assert_eq!(path, dir),
        other => panic!("unexpected: {:?}", other),
    }
    assert!(assert_is_file(&PathBuf::from("/etc/hosts"), true).is_ok());
}

#[test]
fn assert_is_directory_on_a_missing_path_fails() {
    let missing = PathBuf::from("/no/such/place");
    match assert_is_directory(&missing, false) {
        Err(Error::NotADirectory { path }) => assert_eq!(path, missing),
        other => panic!("unexpected: {:?}", other),
    }
    assert!(assert_is_directory(&PathBuf::from("/tmp"), true).is_ok());
}

#[test]
fn canonicalize_path_never_fails() {
    let missing = PathBuf::from("no/such/../place");
    let mut sink = NotifyHandler::new();
    let cause = io::Error::new(io::ErrorKind::NotFound, "gone");
    let resolved = canonicalize_path(&missing, Err(cause), &mut sink);
    assert_eq!(resolved, missing);
    assert_eq!(sink.pending(), 1);
    assert_eq!(sink.take(), vec![Notification::NoCanonicalPath(missing.clone())]);
}

#[test]
fn canonicalize_path_hands_the_resolved_path_on() {
    let given = PathBuf::from("a/../b");
    let mut sink = NotifyHandler::new();
    let resolved = canonicalize_path(&given, Ok(PathBuf::from("/home/b")), &mut sink);
    assert_eq!(resolved, PathBuf::from("/home/b"));
    assert_eq!(sink.pending(), 0);
}

#[test]
fn open_browser_succeeds_only_on_true() {
    assert!(open_browser(Ok(true)).is_ok());
    assert!(matches!(open_browser(Ok(false)), Err(Error::OpeningBrowser)));
    assert!(matches!(open_browser(Err(denied())), Err(Error::OpeningBrowser)));
}

#[test]
fn set_permissions_drops_the_cause() {
    let path = PathBuf::from("bin/tool");
    assert!(set_permissions(&path, Ok(())).is_ok());
    match set_permissions(&path, Err(denied())) {
        Err(Error::SettingPermissions(at)) => assert_eq!(at, path),
        other => panic!("unexpected: {:?}", other),
    }
}

#[test]
fn make_executable_sets_the_executable_bits() {
    let path = PathBuf::from("bin/tool");
    assert_eq!(EXECUTABLE_BITS, 0o111);
    assert_eq!(make_executable(&path, Mode::Bits(0o644)).unwrap(), Some(0o755));
    assert_eq!(make_executable(&path, Mode::Bits(0o600)).unwrap(), Some(0o711));
    assert_eq!(make_executable(&path, Mode::Bits(0o755)).unwrap(), Some(0o755));
    assert_eq!(make_executable(&path, Mode::Bits(0)).unwrap(), Some(0o111));
    assert_eq!(make_executable(&path, Mode::Bits(0o100644)).unwrap(), Some(0o100755));
    assert_eq!(make_executable(&path, Mode::Bits(u32::MAX)).unwrap(), Some(u32::MAX));
}

#[test]
fn make_executable_without_executable_bit_does_nothing() {
    let path = PathBuf::from("bin\\tool.exe");
    assert_eq!(make_executable(&path, Mode::Absent).unwrap(), None);
}

#[test]
fn make_executable_fails_without_metadata() {
    let path = PathBuf::from("bin/tool");
    match make_executable(&path, Mode::Unknown) {
        Err(Error::SettingPermissions(at)) => assert_eq!(at, path),
        other => panic!("unexpected: {:?}", other),
    }
}

#[test]
fn get_local_data_path_needs_a_home() {
    let home = PathBuf::from("/home/user");
    assert_eq!(get_local_data_path(Some(home.clone())).unwrap(), home);
    assert!(matches!(get_local_data_path(None), Err(Error::LocatingHome)));
}

#[test]
fn sink_keeps_the_order_of_delivery() {
    let mut sink = NotifyHandler::new();
    assert_eq!(sink.pending(), 0);
    sink.call(Notification::NoCanonicalPath(PathBuf::from("a")));
    sink.call(Notification::CreatingDirectory("b", PathBuf::from("b")));
    sink.call(Notification::NoCanonicalPath(PathBuf::from("a")));
    assert_eq!(sink.pending(), 3);
    assert_eq!(
        sink.take(),
        vec![
            Notification::NoCanonicalPath(PathBuf::from("a")),
            Notification::CreatingDirectory("b", PathBuf::from("b")),
            Notification::NoCanonicalPath(PathBuf::from("a")),
        ]
    );
    assert_eq!(sink.pending(), 0);
    assert!(sink.take().is_empty());
}
