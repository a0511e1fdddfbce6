//! What the embedding program reports of the attempts it makes, and what it
//! is told to do next.
//!
//! The program around this crate owns every call into the platform. It hands
//! in plain values that say what a call gave, and reads from the step that
//! comes back whether the attempt is now due or the operation is over.

use crate::errors::Error;
use vstd::prelude::*;

verus! {

/// How far the attempt of an operation has come.
pub enum Attempt<O> {
    /// The attempt has not been made yet.
    Pending,
    /// The attempt was made, and this is what it gave.
    Made(O),
}

/// What comes next in an operation.
pub enum Step<T> {
    /// Whatever had to be announced waits in the sink. The attempt is due
    /// now: make it, and report what it gave.
    Proceed,
    /// The operation is over, with this result.
    Done(Result<T, Error>),
}

/// How far filtering a file has come.
pub enum Filtering {
    /// The source was read as text, and this is what reading gave. Text that
    /// does not decode is a failed read.
    Read(Result<String, std::io::Error>),
    /// The text of so many lines was handed out to be written, and this is
    /// what writing it to the destination gave.
    Written(usize, Result<(), std::io::Error>),
}

/// What comes next in filtering a file.
pub enum FilterStep {
    /// Replace the content of the destination with this text, which holds
    /// `count` lines, and report what writing gave.
    Write { text: String, count: usize },
    /// The operation is over, with the number of lines written or the error.
    Done(Result<usize, Error>),
}

/// What happened in a download.
pub enum Transfer<'a> {
    /// Nothing yet: the download is about to begin.
    Pending,
    /// These bytes arrived, after all that arrived before.
    Chunk(&'a [u8]),
    /// The stream ended, and all of it is in the destination.
    Finished,
    /// Connecting, reading or writing failed.
    Failed,
}

/// What is known of a file's permission bits.
pub enum Mode {
    /// The platform has no executable bit.
    Absent,
    /// The file's metadata could not be read.
    Unknown,
    /// The permission bits that the file has now.
    Bits(u32),
}

} // verus!
