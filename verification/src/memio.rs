//! In-memory byte streams.
//!
//! These implement the engine's stream interfaces over plain buffers, so a
//! copy can be exercised without any device: a plain source, a source that
//! is interrupted a set number of times, a source that fails fatally after
//! a set number of reads, and sinks that accept or refuse writes.

use vstd::prelude::*;
use crate::stream::{ByteSink, ByteSource, ReadOutcome};

verus! {

/// Copies up to `max` bytes of `data` starting at `cursor` into a fresh
/// vector, short only when the data runs out.
fn take_front(data: &Vec<u8>, cursor: usize, max: usize) -> (v: Vec<u8>)
    requires
        cursor <= data@.len(),
    ensures
        v@ == data@.subrange(cursor as int, cursor + v@.len()),
        data@.len() - cursor >= max ==> v@.len() == max,
        data@.len() - cursor < max ==> v@.len() == data@.len() - cursor,
{
    let avail = data.len() - cursor;
    let n = if avail < max {
        avail
    } else {
        max
    };
    let mut v: Vec<u8> = Vec::new();
    let mut i: usize = 0;
    while i < n
        invariant
            data@.len() <= usize::MAX,
            cursor + n <= data@.len(),
            i <= n,
            v@.len() == i,
            v@ == data@.subrange(cursor as int, cursor + i),
        decreases n - i,
    {
        v.push(data[cursor + i]);
        proof {
            assert(v@ =~= data@.subrange(cursor as int, cursor + i + 1));
        }
        i = i + 1;
    }
    v
}

/// A source that serves a buffer to the end and is never interrupted.
pub struct MemorySource {
    data: Vec<u8>,
    cursor: usize,
    reads: u64,
}

impl MemorySource {
    #[verifier::type_invariant]
    spec fn type_inv(self) -> bool {
        self.cursor <= self.data@.len()
    }

    /// A source that will produce exactly `data`.
    pub fn new(data: Vec<u8>) -> (r: MemorySource)
        ensures
            r.remaining() == data@,
            r.reads_done() == 0,
    {
        let r = MemorySource { data, cursor: 0, reads: 0 };
        proof {
            assert(r.remaining() =~= r.data@);
        }
        r
    }

    /// How many non-empty reads the source has served, saturating.
    pub closed spec fn reads_done(&self) -> u64 {
        self.reads
    }

    /// Reports how many non-empty reads the source has served.
    pub fn reads_completed(&self) -> (r: u64)
        ensures
            r == self.reads_done(),
    {
        self.reads
    }
}

impl ByteSource for MemorySource {
    closed spec fn remaining(&self) -> Seq<u8> {
        self.data@.skip(self.cursor as int)
    }

    closed spec fn interrupt_budget(&self) -> nat {
        0
    }

    fn read_chunk(&mut self, max: usize) -> (r: ReadOutcome) {
        proof {
            use_type_invariant(&*self);
        }
        let v = take_front(&self.data, self.cursor, max);
        proof {
            assert(self.data@.skip(self.cursor as int).take(v@.len() as int) =~= self.data@
                .subrange(self.cursor as int, self.cursor + v@.len()));
            assert(self.data@.skip(self.cursor as int).skip(v@.len() as int) =~= self.data@.skip(
                self.cursor + v@.len(),
            ));
        }
        let n = v.len();
        let total = self.data.len();
        assert(self.cursor + n <= total);
        self.cursor = self.cursor + n;
        if v.len() > 0 && self.reads < u64::MAX {
            self.reads = self.reads + 1;
        }
        ReadOutcome::Data(v)
    }
}

/// A source that reports a transient interruption a set number of times
/// before every byte is served as a [`MemorySource`] would.
pub struct FlakySource {
    data: Vec<u8>,
    cursor: usize,
    interruptions: u32,
}

impl FlakySource {
    #[verifier::type_invariant]
    spec fn type_inv(self) -> bool {
        self.cursor <= self.data@.len()
    }

    /// A source that will produce `data` after `interruptions` interrupted
    /// reads.
    pub fn new(data: Vec<u8>, interruptions: u32) -> (r: FlakySource)
        ensures
            r.remaining() == data@,
            r.interrupt_budget() == interruptions,
    {
        let r = FlakySource { data, cursor: 0, interruptions };
        proof {
            assert(r.remaining() =~= r.data@);
        }
        r
    }
}

impl ByteSource for FlakySource {
    closed spec fn remaining(&self) -> Seq<u8> {
        self.data@.skip(self.cursor as int)
    }

    closed spec fn interrupt_budget(&self) -> nat {
        self.interruptions as nat
    }

    fn read_chunk(&mut self, max: usize) -> (r: ReadOutcome) {
        proof {
            use_type_invariant(&*self);
        }
        if self.interruptions > 0 {
            self.interruptions = self.interruptions - 1;
            return ReadOutcome::Interrupted;
        }
        let v = take_front(&self.data, self.cursor, max);
        proof {
            assert(self.data@.skip(self.cursor as int).take(v@.len() as int) =~= self.data@
                .subrange(self.cursor as int, self.cursor + v@.len()));
            assert(self.data@.skip(self.cursor as int).skip(v@.len() as int) =~= self.data@.skip(
                self.cursor + v@.len(),
            ));
        }
        let n = v.len();
        let total = self.data.len();
        assert(self.cursor + n <= total);
        self.cursor = self.cursor + n;
        ReadOutcome::Data(v)
    }
}

/// A source that serves a set number of reads and then fails fatally on
/// every further read.
pub struct FaultySource {
    data: Vec<u8>,
    cursor: usize,
    reads_before_fault: u32,
    code: i32,
}

impl FaultySource {
    #[verifier::type_invariant]
    spec fn type_inv(self) -> bool {
        self.cursor <= self.data@.len()
    }

    /// A source over `data` that serves `reads_before_fault` reads and then
    /// fails with OS error `code`.
    pub fn new(data: Vec<u8>, reads_before_fault: u32, code: i32) -> (r: FaultySource)
        ensures
            r.remaining() == data@,
    {
        let r = FaultySource { data, cursor: 0, reads_before_fault, code };
        proof {
            assert(r.remaining() =~= r.data@);
        }
        r
    }
}

impl ByteSource for FaultySource {
    closed spec fn remaining(&self) -> Seq<u8> {
        self.data@.skip(self.cursor as int)
    }

    closed spec fn interrupt_budget(&self) -> nat {
        0
    }

    fn read_chunk(&mut self, max: usize) -> (r: ReadOutcome) {
        proof {
            use_type_invariant(&*self);
        }
        if self.reads_before_fault == 0 {
            return ReadOutcome::Fault(self.code);
        }
        self.reads_before_fault = self.reads_before_fault - 1;
        let v = take_front(&self.data, self.cursor, max);
        proof {
            assert(self.data@.skip(self.cursor as int).take(v@.len() as int) =~= self.data@
                .subrange(self.cursor as int, self.cursor + v@.len()));
            assert(self.data@.skip(self.cursor as int).skip(v@.len() as int) =~= self.data@.skip(
                self.cursor + v@.len(),
            ));
        }
        let n = v.len();
        let total = self.data.len();
        assert(self.cursor + n <= total);
        self.cursor = self.cursor + n;
        ReadOutcome::Data(v)
    }
}

/// A sink that accepts every write into a growing buffer.
pub struct MemorySink {
    data: Vec<u8>,
}

impl MemorySink {
    /// An empty sink.
    pub fn new() -> (r: MemorySink)
        ensures
            r.written() == Seq::<u8>::empty(),
    {
        let r = MemorySink { data: Vec::new() };
        proof {
            assert(r.written() =~= Seq::<u8>::empty());
        }
        r
    }

    /// The bytes written so far.
    pub fn bytes(&self) -> (r: &Vec<u8>)
        ensures
            r@ == self.written(),
    {
        &self.data
    }
}

impl ByteSink for MemorySink {
    closed spec fn written(&self) -> Seq<u8> {
        self.data@
    }

    fn write_all(&mut self, buf: &Vec<u8>) -> (r: Result<(), i32>) {
        let mut i: usize = 0;
        while i < buf.len()
            invariant
                i <= buf@.len(),
                self.data@ == old(self).data@ + buf@.take(i as int),
            decreases buf@.len() - i,
        {
            self.data.push(buf[i]);
            proof {
                assert(old(self).data@ + buf@.take(i + 1) =~= (old(self).data@ + buf@.take(
                    i as int,
                )).push(buf@[i as int]));
            }
            i = i + 1;
        }
        proof {
            assert(buf@.take(buf@.len() as int) =~= buf@);
        }
        Ok(())
    }
}

/// A sink that accepts a set number of writes and then refuses every
/// further one, leaving its contents as they were.
pub struct FaultySink {
    data: Vec<u8>,
    writes_before_fault: u32,
    code: i32,
}

impl FaultySink {
    /// An empty sink that accepts `writes_before_fault` writes and then
    /// fails with OS error `code`.
    pub fn new(writes_before_fault: u32, code: i32) -> (r: FaultySink)
        ensures
            r.written() == Seq::<u8>::empty(),
    {
        let r = FaultySink { data: Vec::new(), writes_before_fault, code };
        proof {
            assert(r.written() =~= Seq::<u8>::empty());
        }
        r
    }

    /// The bytes written so far.
    pub fn bytes(&self) -> (r: &Vec<u8>)
        ensures
            r@ == self.written(),
    {
        &self.data
    }
}

impl ByteSink for FaultySink {
    closed spec fn written(&self) -> Seq<u8> {
        self.data@
    }

    fn write_all(&mut self, buf: &Vec<u8>) -> (r: Result<(), i32>) {
        if self.writes_before_fault == 0 {
            return Err(self.code);
        }
        self.writes_before_fault = self.writes_before_fault - 1;
        let mut i: usize = 0;
        while i < buf.len()
            invariant
                i <= buf@.len(),
                self.data@ == old(self).data@ + buf@.take(i as int),
            decreases buf@.len() - i,
        {
            self.data.push(buf[i]);
            proof {
                assert(old(self).data@ + buf@.take(i + 1) =~= (old(self).data@ + buf@.take(
                    i as int,
                )).push(buf@[i as int]));
            }
            i = i + 1;
        }
        proof {
            assert(buf@.take(buf@.len() as int) =~= buf@);
        }
        Ok(())
    }
}

} // verus!
