//! The error taxonomy: one case per kind of operation, each carrying the
//! logical name of the resource, the paths involved and, for most cases, the
//! cause that the platform reported.
//!
//! Download, linking, copying, permission, browser and home-location
//! failures carry no cause: whatever went wrong underneath is dropped and
//! only the high-level fact is reported.

use std::path::PathBuf;
use vstd::prelude::*;

verus! {

/// `std::io::Error`, the cause that the platform reports. Its inside is never
/// read here: a cause is handed on as it came.
#[verifier::external_type_specification]
#[verifier::external_body]
pub struct ExIoError(std::io::Error);

/// `std::path::PathBuf`, an owned path. Its inside is never read here.
#[verifier::external_type_specification]
#[verifier::external_body]
pub struct ExPathBuf(std::path::PathBuf);

/// `hyper::Url`, a parsed URL. Its inside is never read here.
#[verifier::external_type_specification]
#[verifier::external_body]
pub struct ExUrl(hyper::Url);

/// `PathBuf::clone` returns a path equal to the one it was given.
pub assume_specification[ <std::path::PathBuf as Clone>::clone ](
    path: &std::path::PathBuf,
) -> (copy: std::path::PathBuf)
    ensures
        copy == *path,
;

/// `Url::clone` returns a URL equal to the one it was given.
pub assume_specification[ <hyper::Url as Clone>::clone ](url: &hyper::Url) -> (copy: hyper::Url)
    ensures
        copy == *url,
;

/// How a child process ended: its exit code, or none where it ended without
/// one (on Unix, when a signal killed it).
#[derive(Clone, Copy, Debug, PartialEq, Eq, Structural)]
pub struct ExitStatus {
    pub code: Option<i32>,
}

impl ExitStatus {
    /// A process succeeded when it exited with code 0, and only then.
    pub open spec fn spec_success(self) -> bool {
        self.code == Some(0i32)
    }

    /// Whether the process exited with code 0.
    #[verifier::when_used_as_spec(spec_success)]
    pub fn success(self) -> (ok: bool)
        ensures
            ok == self.spec_success(),
    {
        match self.code {
            Some(code) => code == 0,
            None => false,
        }
    }
}

/// What went wrong, by kind of operation. An error owns copies of the paths
/// it names.
#[derive(Debug)]
#[allow(inconsistent_fields)]
pub enum Error {
    LocatingHome,
    CreatingDirectory { name: &'static str, path: PathBuf, error: std::io::Error },
    ReadingFile { name: &'static str, path: PathBuf, error: std::io::Error },
    ReadingDirectory { name: &'static str, path: PathBuf, error: std::io::Error },
    WritingFile { name: &'static str, path: PathBuf, error: std::io::Error },
    FilteringFile { name: &'static str, src: PathBuf, dest: PathBuf, error: std::io::Error },
    RenamingFile { name: &'static str, src: PathBuf, dest: PathBuf, error: std::io::Error },
    RenamingDirectory { name: &'static str, src: PathBuf, dest: PathBuf, error: std::io::Error },
    RemovingFile { name: &'static str, path: PathBuf, error: std::io::Error },
    RemovingDirectory { name: &'static str, path: PathBuf, error: std::io::Error },
    DownloadingFile { url: hyper::Url, path: PathBuf },
    RunningCommand { name: String, error: std::io::Error },
    CommandStatus { name: String, status: ExitStatus },
    NotAFile { path: PathBuf },
    NotADirectory { path: PathBuf },
    LinkingFile(PathBuf, PathBuf),
    LinkingDirectory(PathBuf, PathBuf),
    CopyingFile(PathBuf, PathBuf),
    CopyingDirectory(PathBuf, PathBuf),
    SettingPermissions(PathBuf),
    OpeningBrowser,
}

impl Error {
    /// The cause that the platform reported, where this kind of error keeps
    /// it. Download, linking, copying, permission, browser and home-location
    /// errors keep none, and neither do the errors that are no failure of
    /// the platform: a command that ended badly, and a path of the wrong
    /// kind.
    pub fn cause(&self) -> (kept: Option<&std::io::Error>)
        ensures
            match self {
                Error::CreatingDirectory { error, .. }
                | Error::ReadingFile { error, .. }
                | Error::ReadingDirectory { error, .. }
                | Error::WritingFile { error, .. }
                | Error::FilteringFile { error, .. }
                | Error::RenamingFile { error, .. }
                | Error::RenamingDirectory { error, .. }
                | Error::RemovingFile { error, .. }
                | Error::RemovingDirectory { error, .. }
                | Error::RunningCommand { error, .. } => kept == Some(error),
                _ => kept is None,
            },
    {
        match self {
            Error::CreatingDirectory { error, .. } => Some(error),
            Error::ReadingFile { error, .. } => Some(error),
            Error::ReadingDirectory { error, .. } => Some(error),
            Error::WritingFile { error, .. } => Some(error),
            Error::FilteringFile { error, .. } => Some(error),
            Error::RenamingFile { error, .. } => Some(error),
            Error::RenamingDirectory { error, .. } => Some(error),
            Error::RemovingFile { error, .. } => Some(error),
            Error::RemovingDirectory { error, .. } => Some(error),
            Error::RunningCommand { error, .. } => Some(error),
            _ => None,
        }
    }
}

} // verus!
