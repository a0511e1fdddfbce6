//! Decision core of an installer's resource operations.
//!
//! Every operation on the file system, on a child process or on the network
//! is described here without being performed: the embedding program makes the
//! attempt and reports what came of it, and the functions of this crate say
//! which event the notification sink receives, when it receives it, and which
//! typed result or error the caller gets.

mod encoding;
pub mod errors;
pub mod hash;
pub mod lines;
pub mod notify;
pub mod raw;
pub mod utils;
