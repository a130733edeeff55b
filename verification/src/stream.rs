//! The stream interfaces the copy engine works against.
//!
//! A device, a file, or an in-memory buffer is presented to the engine as a
//! [`ByteSource`] or a [`ByteSink`]; each is specified by a mathematical
//! model of its contents, so the engine's behaviour is pinned down for every
//! implementation that honours these contracts.

use vstd::prelude::*;

verus! {

/// The outcome of one read attempt on a byte source.
pub enum ReadOutcome {
    /// Bytes taken off the front of the stream; an empty vector signals the
    /// end of the stream.
    Data(Vec<u8>),
    /// A transient interruption: nothing was consumed and trying again is
    /// expected to succeed.
    Interrupted,
    /// A fatal fault, with its OS error code: nothing was consumed.
    Fault(i32),
}

/// A readable stream, modeled by the sequence of bytes it has yet to
/// produce.
///
/// The interruption budget bounds how many transient interruptions the
/// source may still report; every interruption spends some of it, which is
/// what makes an immediate-retry loop on the source finite.
pub trait ByteSource {
    /// The bytes the source will still produce, in order.
    spec fn remaining(&self) -> Seq<u8>;

    /// An upper bound on further transient interruptions.
    spec fn interrupt_budget(&self) -> nat;

    /// Reads up to `max` bytes off the front of the stream.
    fn read_chunk(&mut self, max: usize) -> (r: ReadOutcome)
        requires
            max >= 1,
        ensures
            match r {
                ReadOutcome::Data(v) => {
                    &&& v@.len() <= max
                    &&& v@.len() <= old(self).remaining().len()
                    &&& v@ == old(self).remaining().take(v@.len() as int)
                    &&& final(self).remaining() == old(self).remaining().skip(v@.len() as int)
                    &&& (v@.len() == 0 ==> old(self).remaining().len() == 0)
                },
                ReadOutcome::Interrupted => {
                    &&& final(self).remaining() == old(self).remaining()
                    &&& final(self).interrupt_budget() < old(self).interrupt_budget()
                },
                ReadOutcome::Fault(_) => final(self).remaining() == old(self).remaining(),
            },
    ;
}

/// A writable sink, modeled by the bytes durably written to it.
pub trait ByteSink {
    /// The bytes written so far, in order.
    spec fn written(&self) -> Seq<u8>;

    /// Appends all of `buf` to the sink, or fails with an OS error code and
    /// leaves the sink as it was.
    fn write_all(&mut self, buf: &Vec<u8>) -> (r: Result<(), i32>)
        ensures
            match r {
                Ok(()) => final(self).written() == old(self).written() + buf@,
                Err(_) => final(self).written() == old(self).written(),
            },
    ;
}

} // verus!
