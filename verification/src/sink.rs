//! Sinks: the destinations rendered log lines are written to.
//!
//! A sink is an exclusively-owned writable resource that accepts text and
//! can be flushed; the active sink is swappable wholesale at runtime. The
//! library ships a verified in-memory sink; an application supplies its own
//! implementations for standard output, files and the like.

use vstd::prelude::*;

use crate::error::LogError;

verus! {

/// A writable, flushable destination for rendered log lines.
///
/// `contents` abstracts the text the sink has accepted so far, and it binds
/// only sinks that declare `tracks_contents`: for those, a write either
/// accepts all of `data` or, on failure, none of it, and flushing accepts
/// nothing new. A sink that declares `infallible` owes success on every
/// write and flush. A sink outside the verified world declares neither, so
/// nothing is promised of it that it might not keep.
pub trait LogSink {
    /// The text this sink has accepted so far. Meaningful only where
    /// `tracks_contents` holds; a verified sink overrides it.
    open spec fn contents(&self) -> Seq<char> {
        Seq::empty()
    }

    /// Whether `contents` faithfully models this sink. The default stands
    /// for sinks outside the verified world, of whose contents nothing is
    /// claimed.
    open spec fn tracks_contents(&self) -> bool {
        false
    }

    /// Whether every write and flush on this sink succeeds.
    open spec fn infallible(&self) -> bool {
        false
    }

    /// Appends `data` to the sink.
    fn write_str(&mut self, data: &str) -> (r: Result<(), LogError>)
        ensures
            final(self).tracks_contents() == old(self).tracks_contents(),
            final(self).infallible() == old(self).infallible(),
            old(self).infallible() ==> r is Ok,
            old(self).tracks_contents() && r is Ok ==> final(self).contents() == old(
                self,
            ).contents() + data@,
            old(self).tracks_contents() && r is Err ==> final(self).contents() == old(
                self,
            ).contents(),
    ;

    /// Flushes buffered output through to the destination.
    fn flush(&mut self) -> (r: Result<(), LogError>)
        ensures
            final(self).tracks_contents() == old(self).tracks_contents(),
            final(self).infallible() == old(self).infallible(),
            old(self).infallible() ==> r is Ok,
            old(self).tracks_contents() ==> final(self).contents() == old(self).contents(),
    ;
}

/// An in-memory sink: a growable text buffer that never fails. Useful as a
/// default, for capturing output, and for tests.
#[derive(Debug)]
pub struct MemorySink {
    pub data: String,
}

impl MemorySink {
    /// An empty buffer.
    pub fn new() -> (s: Self)
        ensures
            s.data@.len() == 0,
    {
        MemorySink { data: String::new() }
    }

    /// The text accepted so far, for inspection.
    pub fn contents_str(&self) -> (r: &str)
        ensures
            r@ == self.contents(),
    {
        self.data.as_str()
    }

    /// Hands the accepted text out and leaves the buffer empty.
    pub fn take(&mut self) -> (r: String)
        ensures
            r@ == old(self).contents(),
            final(self).contents().len() == 0,
    {
        let out = self.data.clone();
        self.data = String::new();
        out
    }
}

impl LogSink for MemorySink {
    open spec fn contents(&self) -> Seq<char> {
        self.data@
    }

    open spec fn tracks_contents(&self) -> bool {
        true
    }

    open spec fn infallible(&self) -> bool {
        true
    }

    fn write_str(&mut self, data: &str) -> (r: Result<(), LogError>) {
        self.data.append(data);
        Ok(())
    }

    fn flush(&mut self) -> (r: Result<(), LogError>) {
        Ok(())
    }
}

} // verus!
