//! Notification events and the sink that receives them.
//!
//! The sink only observes: it returns nothing and cannot veto an operation.
//! It keeps the events in the order in which they were delivered, so that the
//! embedding program can hand them on before it makes the attempt that an
//! event announces.

use std::path::PathBuf;
use vstd::prelude::*;

verus! {

/// An action that is about to happen, or a fallback that was taken.
#[derive(Debug, PartialEq, Eq)]
pub enum Notification {
    CreatingDirectory(&'static str, PathBuf),
    DownloadingFile(hyper::Url, PathBuf),
    LinkingDirectory(PathBuf, PathBuf),
    CopyingDirectory(PathBuf, PathBuf),
    RemovingDirectory(&'static str, PathBuf),
    NoCanonicalPath(PathBuf),
}

/// The notification sink. Its view is the sequence of events delivered and
/// not yet taken out, oldest first.
pub struct NotifyHandler {
    delivered: Vec<Notification>,
}

impl View for NotifyHandler {
    type V = Seq<Notification>;

    closed spec fn view(&self) -> Seq<Notification> {
        self.delivered@
    }
}

impl NotifyHandler {
    /// A sink that has received nothing.
    pub fn new() -> (handler: NotifyHandler)
        ensures
            handler@ == Seq::<Notification>::empty(),
    {
        NotifyHandler { delivered: Vec::new() }
    }

    /// Delivers one event: it comes after every event delivered before.
    pub fn call(&mut self, event: Notification)
        ensures
            final(self)@ == old(self)@.push(event),
    {
        self.delivered.push(event);
    }

    /// How many events are waiting to be taken out.
    pub fn pending(&self) -> (count: usize)
        ensures
            count == self@.len(),
    {
        self.delivered.len()
    }

    /// Takes out every waiting event, oldest first, and leaves none behind.
    pub fn take(&mut self) -> (events: Vec<Notification>)
        ensures
            events@ == old(self)@,
            final(self)@ == Seq::<Notification>::empty(),
    {
        let mut events: Vec<Notification> = Vec::new();
        std::mem::swap(&mut events, &mut self.delivered);
        events
    }
}

} // verus!
