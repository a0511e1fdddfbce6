//! The resource operations, one function each.
//!
//! A function takes the logical name and the paths of the operation,
//! together with what the attempt gave, and returns the typed result. An
//! operation that announces itself takes the sink too, and an [`Attempt`]:
//! called with `Attempt::Pending` it delivers the event and answers
//! `Step::Proceed`; called again with what the attempt gave it answers
//! `Step::Done` and delivers nothing.

use crate::errors::{Error, ExitStatus};
use crate::hash::took_in;
use crate::lines::{filter_lines, filters_to, match_lines, matches_to};
use crate::notify::{Notification, NotifyHandler};
use crate::raw::{Attempt, FilterStep, Filtering, Mode, Step, Transfer};
use openssl::error::ErrorStack;
use openssl::hash::Hasher;
use std::path::PathBuf;
use vstd::prelude::*;

verus! {

// Directory lifecycle

/// Creates a directory, and those above it, unless it is there already.
///
/// `exists` says whether the path named a directory when the operation
/// began. Where it did, nothing is announced or attempted and the answer is
/// that nothing was created. Where it did not, the sink receives the event
/// before the attempt, and the answer after it is that a directory was
/// created, or the error.
pub fn ensure_dir_exists(
    name: &'static str,
    path: &PathBuf,
    exists: bool,
    attempt: Attempt<Result<(), std::io::Error>>,
    notify_handler: &mut NotifyHandler,
) -> (step: Step<bool>)
    ensures
        exists ==> {
            &&& step == Step::Done(Ok::<bool, Error>(false))
            &&& final(notify_handler)@ == old(notify_handler)@
        },
        !exists ==> match attempt {
            Attempt::Pending => {
                &&& step == Step::<bool>::Proceed
                &&& final(notify_handler)@ == old(notify_handler)@.push(
                    Notification::CreatingDirectory(name, *path),
                )
            },
            Attempt::Made(Ok(_)) => {
                &&& step == Step::Done(Ok::<bool, Error>(true))
                &&& final(notify_handler)@ == old(notify_handler)@
            },
            Attempt::Made(Err(cause)) => {
                &&& step == Step::Done(
                    Err::<bool, Error>(
                        (Error::CreatingDirectory { name, path: *path, error: cause }),
                    ),
                )
                &&& final(notify_handler)@ == old(notify_handler)@
            },
        },
{
    if exists {
        return Step::Done(Ok(false));
    }
    match attempt {
        Attempt::Pending => {
            notify_handler.call(Notification::CreatingDirectory(name, path.clone()));
            Step::Proceed
        },
        Attempt::Made(Ok(_)) => Step::Done(Ok(true)),
        Attempt::Made(Err(cause)) => Step::Done(
            Err(Error::CreatingDirectory { name, path: path.clone(), error: cause }),
        ),
    }
}

/// Removes a directory and all that is in it. The sink receives the event
/// before the attempt.
pub fn remove_dir(
    name: &'static str,
    path: &PathBuf,
    attempt: Attempt<Result<(), std::io::Error>>,
    notify_handler: &mut NotifyHandler,
) -> (step: Step<()>)
    ensures
        match attempt {
            Attempt::Pending => {
                &&& step == Step::<()>::Proceed
                &&& final(notify_handler)@ == old(notify_handler)@.push(
                    Notification::RemovingDirectory(name, *path),
                )
            },
            Attempt::Made(Ok(_)) => {
                &&& step == Step::Done(Ok::<(), Error>(()))
                &&& final(notify_handler)@ == old(notify_handler)@
            },
            Attempt::Made(Err(cause)) => {
                &&& step == Step::Done(
                    Err::<(), Error>(
                        (Error::RemovingDirectory { name, path: *path, error: cause }),
                    ),
                )
                &&& final(notify_handler)@ == old(notify_handler)@
            },
        },
{
    match attempt {
        Attempt::Pending => {
            notify_handler.call(Notification::RemovingDirectory(name, path.clone()));
            Step::Proceed
        },
        Attempt::Made(Ok(_)) => Step::Done(Ok(())),
        Attempt::Made(Err(cause)) => Step::Done(
            Err(Error::RemovingDirectory { name, path: path.clone(), error: cause }),
        ),
    }
}

/// Lists a directory: the entries come back as they were listed.
pub fn read_dir(
    name: &'static str,
    path: &PathBuf,
    outcome: Result<Vec<PathBuf>, std::io::Error>,
) -> (result: Result<Vec<PathBuf>, Error>)
    ensures
        match outcome {
            Ok(entries) => result == Ok::<Vec<PathBuf>, Error>(entries),
            Err(cause) => result == Err::<Vec<PathBuf>, Error>(
                (Error::ReadingDirectory { name, path: *path, error: cause }),
            ),
        },
{
    match outcome {
        Ok(entries) => Ok(entries),
        Err(cause) => Err(Error::ReadingDirectory { name, path: path.clone(), error: cause }),
    }
}

// File content

/// Reads a whole file as text: the text comes back as it was read.
pub fn read_file(
    name: &'static str,
    path: &PathBuf,
    outcome: Result<String, std::io::Error>,
) -> (result: Result<String, Error>)
    ensures
        match outcome {
            Ok(text) => result == Ok::<String, Error>(text),
            Err(cause) => result == Err::<String, Error>(
                (Error::ReadingFile { name, path: *path, error: cause }),
            ),
        },
{
    match outcome {
        Ok(text) => Ok(text),
        Err(cause) => Err(Error::ReadingFile { name, path: path.clone(), error: cause }),
    }
}

/// Replaces the content of a file.
pub fn write_file(
    name: &'static str,
    path: &PathBuf,
    outcome: Result<(), std::io::Error>,
) -> (result: Result<(), Error>)
    ensures
        match outcome {
            Ok(_) => result == Ok::<(), Error>(()),
            Err(cause) => result == Err::<(), Error>(
                (Error::WritingFile { name, path: *path, error: cause }),
            ),
        },
{
    match outcome {
        Ok(_) => Ok(()),
        Err(cause) => Err(Error::WritingFile { name, path: path.clone(), error: cause }),
    }
}

/// Adds a line at the end of a file. A failure is reported as a failure to
/// write the file.
pub fn append_file(
    name: &'static str,
    path: &PathBuf,
    outcome: Result<(), std::io::Error>,
) -> (result: Result<(), Error>)
    ensures
        match outcome {
            Ok(_) => result == Ok::<(), Error>(()),
            Err(cause) => result == Err::<(), Error>(
                (Error::WritingFile { name, path: *path, error: cause }),
            ),
        },
{
    match outcome {
        Ok(_) => Ok(()),
        Err(cause) => Err(Error::WritingFile { name, path: path.clone(), error: cause }),
    }
}

/// Removes a file.
pub fn remove_file(
    name: &'static str,
    path: &PathBuf,
    outcome: Result<(), std::io::Error>,
) -> (result: Result<(), Error>)
    ensures
        match outcome {
            Ok(_) => result == Ok::<(), Error>(()),
            Err(cause) => result == Err::<(), Error>(
                (Error::RemovingFile { name, path: *path, error: cause }),
            ),
        },
{
    match outcome {
        Ok(_) => Ok(()),
        Err(cause) => Err(Error::RemovingFile { name, path: path.clone(), error: cause }),
    }
}

/// Copies to `dest` the lines of `src` for which `filter` holds, and counts
/// them.
///
/// Given what reading the source gave, this says which text is to be written
/// to the destination: the lines kept, in order, each followed by a line
/// feed. Given what writing gave, it returns the number of lines written.
/// A failed read and a failed write are both reported as a failure to
/// filter, with the cause.
pub fn filter_file<F: Fn(&str) -> bool>(
    name: &'static str,
    src: &PathBuf,
    dest: &PathBuf,
    progress: Filtering,
    filter: F,
) -> (step: FilterStep)
    requires
        forall|line: &str| call_requires(filter, (line,)),
    ensures
        match progress {
            Filtering::Read(Ok(content)) => {
                &&& step matches FilterStep::Write { text, count }
                &&& filters_to(filter, content@, text@, count as nat)
            },
            Filtering::Written(count, Ok(_)) => step == FilterStep::Done(
                Ok::<usize, Error>(count),
            ),
            Filtering::Read(Err(cause)) | Filtering::Written(_, Err(cause)) => step
                == FilterStep::Done(
                Err::<usize, Error>(
                    (Error::FilteringFile { name, src: *src, dest: *dest, error: cause }),
                ),
            ),
        },
{
    match progress {
        Filtering::Read(Ok(content)) => {
            let (text, count) = filter_lines(content.as_str(), &filter);
            FilterStep::Write { text, count }
        },
        Filtering::Written(count, Ok(_)) => FilterStep::Done(Ok(count)),
        Filtering::Read(Err(cause)) | Filtering::Written(_, Err(cause)) => FilterStep::Done(
            Err(Error::FilteringFile { name, src: src.clone(), dest: dest.clone(), error: cause }),
        ),
    }
}

/// Searches `src` line by line for the first line for which `f` has a value,
/// and returns that value; nothing, where `f` has a value for no line. No
/// line after the first match is handed to `f`. A failed read is reported as
/// a failure to read the file.
pub fn match_file<T, F: Fn(&str) -> Option<T>>(
    name: &'static str,
    src: &PathBuf,
    content: Result<String, std::io::Error>,
    f: F,
) -> (result: Result<Option<T>, Error>)
    requires
        forall|line: &str| call_requires(f, (line,)),
    ensures
        match content {
            Ok(text) => result matches Ok(found) && matches_to(f, text@, found),
            Err(cause) => result == Err::<Option<T>, Error>(
                (Error::ReadingFile { name, path: *src, error: cause }),
            ),
        },
{
    match content {
        Ok(text) => Ok(match_lines(text.as_str(), &f)),
        Err(cause) => Err(Error::ReadingFile { name, path: src.clone(), error: cause }),
    }
}

// Path administration

/// Renames a file.
pub fn rename_file(
    name: &'static str,
    src: &PathBuf,
    dest: &PathBuf,
    outcome: Result<(), std::io::Error>,
) -> (result: Result<(), Error>)
    ensures
        match outcome {
            Ok(_) => result == Ok::<(), Error>(()),
            Err(cause) => result == Err::<(), Error>(
                (Error::RenamingFile { name, src: *src, dest: *dest, error: cause }),
            ),
        },
{
    match outcome {
        Ok(_) => Ok(()),
        Err(cause) => Err(
            Error::RenamingFile { name, src: src.clone(), dest: dest.clone(), error: cause },
        ),
    }
}

/// Renames a directory.
pub fn rename_dir(
    name: &'static str,
    src: &PathBuf,
    dest: &PathBuf,
    outcome: Result<(), std::io::Error>,
) -> (result: Result<(), Error>)
    ensures
        match outcome {
            Ok(_) => result == Ok::<(), Error>(()),
            Err(cause) => result == Err::<(), Error>(
                (Error::RenamingDirectory { name, src: *src, dest: *dest, error: cause }),
            ),
        },
{
    match outcome {
        Ok(_) => Ok(()),
        Err(cause) => Err(
            Error::RenamingDirectory { name, src: src.clone(), dest: dest.clone(), error: cause },
        ),
    }
}

/// Copies a file byte for byte. The cause of a failure is dropped.
pub fn copy_file(
    src: &PathBuf,
    dest: &PathBuf,
    outcome: Result<u64, std::io::Error>,
) -> (result: Result<(), Error>)
    ensures
        match outcome {
            Ok(_) => result == Ok::<(), Error>(()),
            Err(_) => result == Err::<(), Error>(Error::CopyingFile(*src, *dest)),
        },
{
    match outcome {
        Ok(_) => Ok(()),
        Err(_) => Err(Error::CopyingFile(src.clone(), dest.clone())),
    }
}

/// Copies a directory and all that is in it. The sink receives the event
/// before the attempt. The cause of a failure is dropped.
pub fn copy_dir(
    src: &PathBuf,
    dest: &PathBuf,
    attempt: Attempt<bool>,
    notify_handler: &mut NotifyHandler,
) -> (step: Step<()>)
    ensures
        match attempt {
            Attempt::Pending => {
                &&& step == Step::<()>::Proceed
                &&& final(notify_handler)@ == old(notify_handler)@.push(
                    Notification::CopyingDirectory(*src, *dest),
                )
            },
            Attempt::Made(copied) => {
                &&& copied ==> step == Step::Done(Ok::<(), Error>(()))
                &&& !copied ==> step == Step::Done(
                    Err::<(), Error>(Error::CopyingDirectory(*src, *dest)),
                )
                &&& final(notify_handler)@ == old(notify_handler)@
            },
        },
{
    match attempt {
        Attempt::Pending => {
            notify_handler.call(Notification::CopyingDirectory(src.clone(), dest.clone()));
            Step::Proceed
        },
        Attempt::Made(true) => Step::Done(Ok(())),
        Attempt::Made(false) => Step::Done(
            Err(Error::CopyingDirectory(src.clone(), dest.clone())),
        ),
    }
}

/// Links a file symbolically. Whatever made the link fail, the error is the
/// same.
pub fn symlink_file(src: &PathBuf, dest: &PathBuf, linked: bool) -> (result: Result<(), Error>)
    ensures
        linked ==> result == Ok::<(), Error>(()),
        !linked ==> result == Err::<(), Error>(Error::LinkingFile(*src, *dest)),
{
    if linked {
        Ok(())
    } else {
        Err(Error::LinkingFile(src.clone(), dest.clone()))
    }
}

/// Links a directory symbolically. The sink receives the event before the
/// attempt. Whatever made the link fail, the error is the same.
pub fn symlink_dir(
    src: &PathBuf,
    dest: &PathBuf,
    attempt: Attempt<bool>,
    notify_handler: &mut NotifyHandler,
) -> (step: Step<()>)
    ensures
        match attempt {
            Attempt::Pending => {
                &&& step == Step::<()>::Proceed
                &&& final(notify_handler)@ == old(notify_handler)@.push(
                    Notification::LinkingDirectory(*src, *dest),
                )
            },
            Attempt::Made(linked) => {
                &&& linked ==> step == Step::Done(Ok::<(), Error>(()))
                &&& !linked ==> step == Step::Done(
                    Err::<(), Error>(Error::LinkingDirectory(*src, *dest)),
                )
                &&& final(notify_handler)@ == old(notify_handler)@
            },
        },
{
    match attempt {
        Attempt::Pending => {
            notify_handler.call(Notification::LinkingDirectory(src.clone(), dest.clone()));
            Step::Proceed
        },
        Attempt::Made(true) => Step::Done(Ok(())),
        Attempt::Made(false) => Step::Done(
            Err(Error::LinkingDirectory(src.clone(), dest.clone())),
        ),
    }
}

/// Links a file by a hard link. Whatever made the link fail, the error is
/// the same, and the same as for a symbolic link.
pub fn hardlink_file(src: &PathBuf, dest: &PathBuf, linked: bool) -> (result: Result<(), Error>)
    ensures
        linked ==> result == Ok::<(), Error>(()),
        !linked ==> result == Err::<(), Error>(Error::LinkingFile(*src, *dest)),
{
    if linked {
        Ok(())
    } else {
        Err(Error::LinkingFile(src.clone(), dest.clone()))
    }
}

/// Resolves a path as far as the platform can. This never fails: where the
/// path cannot be resolved, the sink receives one event that says so and the
/// path comes back as it was given.
pub fn canonicalize_path(
    path: &PathBuf,
    outcome: Result<PathBuf, std::io::Error>,
    notify_handler: &mut NotifyHandler,
) -> (resolved: PathBuf)
    ensures
        match outcome {
            Ok(canonical) => {
                &&& resolved == canonical
                &&& final(notify_handler)@ == old(notify_handler)@
            },
            Err(_) => {
                &&& resolved == *path
                &&& final(notify_handler)@ == old(notify_handler)@.push(
                    Notification::NoCanonicalPath(*path),
                )
            },
        },
{
    match outcome {
        Ok(canonical) => canonical,
        Err(_) => {
            notify_handler.call(Notification::NoCanonicalPath(path.clone()));
            path.clone()
        },
    }
}

// Verification

/// Checks that a path names a regular file. `is_file` is false where the
/// path names something else, and where it names nothing.
pub fn assert_is_file(path: &PathBuf, is_file: bool) -> (result: Result<(), Error>)
    ensures
        is_file ==> result == Ok::<(), Error>(()),
        !is_file ==> result == Err::<(), Error>((Error::NotAFile { path: *path })),
{
    if !is_file {
        Err(Error::NotAFile { path: path.clone() })
    } else {
        Ok(())
    }
}

/// Checks that a path names a directory. `is_directory` is false where the
/// path names something else, and where it names nothing.
pub fn assert_is_directory(path: &PathBuf, is_directory: bool) -> (result: Result<(), Error>)
    ensures
        is_directory ==> result == Ok::<(), Error>(()),
        !is_directory ==> result == Err::<(), Error>((Error::NotADirectory { path: *path })),
{
    if !is_directory {
        Err(Error::NotADirectory { path: path.clone() })
    } else {
        Ok(())
    }
}

// Network

/// Says what follows for a download from feeding a chunk to its accumulator:
/// the chunk goes on to the destination where the accumulator took it in,
/// and the download has failed where it did not.
pub fn chunk_hashed(
    url: &hyper::Url,
    path: &PathBuf,
    fed: Result<(), ErrorStack>,
) -> (step: Step<()>)
    ensures
        fed is Ok ==> step == Step::<()>::Proceed,
        fed is Err ==> step == Step::Done(
            Err::<(), Error>((Error::DownloadingFile { url: *url, path: *path })),
        ),
{
    match fed {
        Ok(_) => Step::Proceed,
        Err(_) => Step::Done(
            Err(Error::DownloadingFile { url: url.clone(), path: path.clone() }),
        ),
    }
}

/// Downloads a URL to a file, chunk by chunk.
///
/// Before anything is attempted the sink receives the event. Every chunk
/// that arrives is fed to the accumulator, where there is one, and only then
/// goes on to the destination: `Step::Proceed` after a chunk says that the
/// chunk is to be written now. Whatever fails, the connection, a read, a
/// write or the accumulator, the error is the same and carries the URL and
/// the path, but no cause.
pub fn download_file(
    url: &hyper::Url,
    path: &PathBuf,
    event: Transfer<'_>,
    hasher: Option<&mut Hasher>,
    notify_handler: &mut NotifyHandler,
) -> (step: Step<()>)
    ensures
        match event {
            Transfer::Pending => {
                &&& step == Step::<()>::Proceed
                &&& final(notify_handler)@ == old(notify_handler)@.push(
                    Notification::DownloadingFile(*url, *path),
                )
            },
            Transfer::Chunk(chunk) => {
                &&& match hasher {
                    Some(h) => {
                        ||| step == Step::<()>::Proceed && took_in(*h, chunk@, *final(h))
                        ||| step == Step::Done(
                            Err::<(), Error>(
                                (Error::DownloadingFile { url: *url, path: *path }),
                            ),
                        )
                    },
                    None => step == Step::<()>::Proceed,
                }
                &&& final(notify_handler)@ == old(notify_handler)@
            },
            Transfer::Finished => {
                &&& step == Step::Done(Ok::<(), Error>(()))
                &&& final(notify_handler)@ == old(notify_handler)@
            },
            Transfer::Failed => {
                &&& step == Step::Done(
                    Err::<(), Error>((Error::DownloadingFile { url: *url, path: *path })),
                )
                &&& final(notify_handler)@ == old(notify_handler)@
            },
        },
        !(event is Chunk) ==> match hasher {
            Some(h) => *final(h) == *h,
            None => true,
        },
{
    match event {
        Transfer::Pending => {
            notify_handler.call(Notification::DownloadingFile(url.clone(), path.clone()));
            Step::Proceed
        },
        Transfer::Chunk(chunk) => match hasher {
            Some(h) => chunk_hashed(url, path, h.update(chunk)),
            None => Step::Proceed,
        },
        Transfer::Finished => Step::Done(Ok(())),
        Transfer::Failed => Step::Done(
            Err(Error::DownloadingFile { url: url.clone(), path: path.clone() }),
        ),
    }
}

// Process

/// Classifies a command that was run to completion. A command that could not
/// be launched and one that ended with anything but exit code 0 are
/// different errors; both carry the logical name.
pub fn cmd_status(
    name: &'static str,
    outcome: Result<ExitStatus, std::io::Error>,
) -> (result: Result<(), Error>)
    ensures
        match outcome {
            Ok(status) => if status.success() {
                result == Ok::<(), Error>(())
            } else {
                &&& result matches Err(Error::CommandStatus { name: carried, status: ended })
                &&& carried@ == name@
                &&& ended == status
            },
            Err(cause) => {
                &&& result matches Err(Error::RunningCommand { name: carried, error })
                &&& carried@ == name@
                &&& error == cause
            },
        },
{
    match outcome {
        Ok(status) => {
            if status.success() {
                Ok(())
            } else {
                Err(Error::CommandStatus { name: name.to_owned(), status })
            }
        },
        Err(cause) => Err(Error::RunningCommand { name: name.to_owned(), error: cause }),
    }
}

// Platform integration

/// Opens a path in the browser. Only an attempt that answered `Ok(true)`
/// succeeded; every other answer gives the one error, which carries nothing.
pub fn open_browser(outcome: Result<bool, std::io::Error>) -> (result: Result<(), Error>)
    ensures
        outcome == Ok::<bool, std::io::Error>(true) ==> result == Ok::<(), Error>(()),
        outcome != Ok::<bool, std::io::Error>(true) ==> result == Err::<(), Error>(
            Error::OpeningBrowser,
        ),
{
    match outcome {
        Ok(true) => Ok(()),
        _ => Err(Error::OpeningBrowser),
    }
}

/// The permission bits that mark a file as executable by its owner, its
/// group and everybody else.
pub const EXECUTABLE_BITS: u32 = 0o111;

/// Says which permission bits make a file executable: the bits it has, with
/// the executable bits set as well. They are to be persisted with
/// [`set_permissions`]. Where the platform has no executable bit there is
/// nothing to persist, and where the bits could not be read the operation
/// has failed already.
pub fn make_executable(path: &PathBuf, mode: Mode) -> (result: Result<Option<u32>, Error>)
    ensures
        match mode {
            Mode::Absent => result == Ok::<Option<u32>, Error>(None),
            Mode::Unknown => result == Err::<Option<u32>, Error>(
                Error::SettingPermissions(*path),
            ),
            Mode::Bits(bits) => result == Ok::<Option<u32>, Error>(
                Some(bits | EXECUTABLE_BITS),
            ),
        },
{
    match mode {
        Mode::Absent => Ok(None),
        Mode::Unknown => Err(Error::SettingPermissions(path.clone())),
        Mode::Bits(bits) => Ok(Some(bits | EXECUTABLE_BITS)),
    }
}

/// Persists the permission bits of a file. The cause of a failure is dropped.
pub fn set_permissions(
    path: &PathBuf,
    outcome: Result<(), std::io::Error>,
) -> (result: Result<(), Error>)
    ensures
        match outcome {
            Ok(_) => result == Ok::<(), Error>(()),
            Err(_) => result == Err::<(), Error>(Error::SettingPermissions(*path)),
        },
{
    match outcome {
        Ok(_) => Ok(()),
        Err(_) => Err(Error::SettingPermissions(path.clone())),
    }
}

/// Locates the per-user data directory: the directory that the platform
/// named, or the home-location error where it named none.
pub fn get_local_data_path(located: Option<PathBuf>) -> (result: Result<PathBuf, Error>)
    ensures
        match located {
            Some(path) => result == Ok::<PathBuf, Error>(path),
            None => result == Err::<PathBuf, Error>(Error::LocatingHome),
        },
{
    match located {
        Some(path) => Ok(path),
        None => Err(Error::LocatingHome),
    }
}

} // verus!
