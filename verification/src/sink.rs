//! The sink capability: anything the logger can write to and flush.

use vstd::prelude::*;
use vstd::string::StringExecFns;

verus! {

/// The single error kind of the logger: an I/O failure on a sink.
#[derive(Debug, Copy, Clone, PartialEq, Eq, Structural)]
pub struct LogError;

/// A writable, flushable output sink.
///
/// A sink is modelled by the text written to it so far and by the number of
/// times it has been flushed. Either operation may fail with a [`LogError`];
/// on failure nothing is promised of the sink, matching a byte stream whose
/// write may have gone through in part.
pub trait Sink: Sized {
    /// All text written to the sink so far.
    spec fn content(&self) -> Seq<char>;

    /// How many times the sink has been flushed so far.
    spec fn flush_count(&self) -> nat;

    /// Appends `s` to the sink.
    fn write_str(&mut self, s: &str) -> (r: Result<(), LogError>)
        ensures
            r is Ok ==> final(self).content() == old(self).content() + s@
                && final(self).flush_count() == old(self).flush_count(),
    ;

    /// Flushes the sink, making the written text observable and durable.
    fn flush(&mut self) -> (r: Result<(), LogError>)
        ensures
            r is Ok ==> final(self).content() == old(self).content()
                && final(self).flush_count() == old(self).flush_count() + 1,
    ;
}

/// An in-memory sink: it keeps the written text in a `String` and counts its
/// flushes, and can be told to fail, so that error propagation can be observed.
pub struct MemSink {
    /// The text written so far.
    pub data: String,
    /// How many times the sink has been flushed.
    pub flushes: u64,
    /// When set, every operation fails with a [`LogError`].
    pub fail: bool,
}

impl MemSink {
    /// An empty sink that accepts every write.
    pub fn new() -> (r: MemSink)
        ensures
            r.content() == Seq::<char>::empty(),
            r.flush_count() == 0,
            !r.fail,
    {
        MemSink { data: String::new(), flushes: 0, fail: false }
    }

    /// An empty sink on which every operation fails.
    pub fn failing() -> (r: MemSink)
        ensures
            r.content() == Seq::<char>::empty(),
            r.flush_count() == 0,
            r.fail,
    {
        MemSink { data: String::new(), flushes: 0, fail: true }
    }
}

impl Sink for MemSink {
    open spec fn content(&self) -> Seq<char> {
        self.data@
    }

    open spec fn flush_count(&self) -> nat {
        self.flushes as nat
    }

    fn write_str(&mut self, s: &str) -> (r: Result<(), LogError>)
        ensures
            old(self).fail <==> r is Err,
            r is Err ==> *final(self) == *old(self),
    {
        if self.fail {
            Err(LogError)
        } else {
            self.data.append(s);
            Ok(())
        }
    }

    fn flush(&mut self) -> (r: Result<(), LogError>)
        ensures
            (old(self).fail || old(self).flushes == u64::MAX) <==> r is Err,
            r is Err ==> *final(self) == *old(self),
    {
        if self.fail || self.flushes == u64::MAX {
            Err(LogError)
        } else {
            self.flushes = self.flushes + 1;
            Ok(())
        }
    }
}

} // verus!
