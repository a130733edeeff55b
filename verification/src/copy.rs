//! The chunked copy engine.
//!
//! Bytes are moved from a [`ByteSource`] to a [`ByteSink`] in chunks of a
//! fixed size.  A zero-byte read ends the copy successfully; a transient
//! interruption is retried at once and never surfaces; any other fault
//! aborts the copy with the chunk that failed left unwritten.

use vstd::prelude::*;
use crate::stream::{ByteSink, ByteSource, ReadOutcome};

verus! {

/// The chunk size the imaging tool copies with: 1 MiB.
pub const CHUNK_SIZE: usize = 1024 * 1024;

/// A fatal copy failure, carrying the OS error code of the underlying
/// fault.  A transient read interruption is absorbed by retry and has no
/// variant here, so it can never be surfaced to a caller.
#[derive(Clone, Copy, PartialEq, Eq, Structural, Debug)]
pub enum CopyError {
    /// A source read failed for a reason other than interruption.
    Read(i32),
    /// The sink refused a completed chunk.
    Write(i32),
}

/// Copies the whole source into the sink in chunks of `chunk_size` bytes.
///
/// On success the sink has grown by exactly the source's bytes, in order,
/// and the returned count is their number.  On a read fault everything
/// consumed from the source has been written and nothing more; on a write
/// fault at most one chunk read from the source is missing from the sink.
pub fn copy<S: ByteSource, D: ByteSink>(
    source: &mut S,
    destination: &mut D,
    chunk_size: usize,
) -> (r: Result<u64, CopyError>)
    requires
        chunk_size >= 1,
        old(source).remaining().len() <= u64::MAX,
    ensures
        match r {
            Ok(n) => {
                &&& final(source).remaining().len() == 0
                &&& final(destination).written() == old(destination).written() + old(
                    source,
                ).remaining()
                &&& n == old(source).remaining().len()
            },
            Err(CopyError::Read(_)) => {
                let consumed = old(source).remaining().len() - final(source).remaining().len();
                &&& final(source).remaining() == old(source).remaining().skip(consumed)
                &&& final(destination).written() == old(destination).written() + old(
                    source,
                ).remaining().take(consumed)
            },
            Err(CopyError::Write(_)) => {
                let consumed = old(source).remaining().len() - final(source).remaining().len();
                &&& final(source).remaining() == old(source).remaining().skip(consumed)
                &&& exists|j: int|
                    {
                        &&& 0 <= j <= consumed
                        &&& consumed - j <= chunk_size
                        &&& final(destination).written() == old(destination).written() + old(
                            source,
                        ).remaining().take(j)
                    }
            },
        },
{
    let ghost source_bytes = source.remaining();
    let ghost sink_start = destination.written();
    let mut transferred: u64 = 0;
    loop
        invariant
            chunk_size >= 1,
            source_bytes == old(source).remaining(),
            sink_start == old(destination).written(),
            source_bytes.len() <= u64::MAX,
            transferred <= source_bytes.len(),
            source.remaining() == source_bytes.skip(transferred as int),
            destination.written() == sink_start + source_bytes.take(transferred as int),
        ensures
            transferred == source_bytes.len(),
            source.remaining().len() == 0,
            destination.written() == sink_start + source_bytes,
        decreases source.remaining().len(), source.interrupt_budget(),
    {
        let outcome = source.read_chunk(chunk_size);
        match outcome {
            ReadOutcome::Interrupted => {
            },
            ReadOutcome::Fault(code) => {
                proof {
                    assert(source_bytes.skip(transferred as int).len() == source_bytes.len()
                        - transferred);
                }
                return Err(CopyError::Read(code));
            },
            ReadOutcome::Data(v) => {
                if v.len() == 0 {
                    proof {
                        assert(source_bytes.skip(transferred as int).len() == source_bytes.len()
                            - transferred);
                        assert(source_bytes.take(source_bytes.len() as int) =~= source_bytes);
                    }
                    break ;
                }
                let read_len = v.len();
                proof {
                    assert(source_bytes.skip(transferred as int).len() == source_bytes.len()
                        - transferred);
                    assert(transferred + read_len <= source_bytes.len());
                    assert(source_bytes.take(transferred as int) + source_bytes.skip(
                        transferred as int,
                    ).take(read_len as int) =~= source_bytes.take(transferred + read_len));
                    assert(source_bytes.skip(transferred as int).skip(read_len as int)
                        =~= source_bytes.skip(transferred + read_len));
                }
                match destination.write_all(&v) {
                    Ok(_) => {
                        transferred = transferred + read_len as u64;
                    },
                    Err(code) => {
                        proof {
                            let consumed = transferred + read_len;
                            assert(destination.written() == sink_start + source_bytes.take(
                                transferred as int,
                            ));
                            assert(0 <= transferred as int <= consumed);
                            assert(consumed - transferred as int <= chunk_size);
                        }
                        return Err(CopyError::Write(code));
                    },
                }
            },
        }
    }
    Ok(transferred)
}

/// Law: copying the same bytes twice gives byte-identical results.  Two
/// successful copies whose sources hold the same content and whose sinks
/// start empty leave the sinks byte for byte equal, each exactly as long as
/// the content.
pub proof fn lemma_copy_repeatable(content: Seq<u8>, first: Seq<u8>, second: Seq<u8>)
    requires
        first == Seq::<u8>::empty() + content,
        second == Seq::<u8>::empty() + content,
    ensures
        first == second,
        first.len() == content.len(),
{
    assert(Seq::<u8>::empty() + content =~= content);
}

/// The number of reads a source that always fills the chunk sustains: one
/// per full chunk, plus one for a final short chunk.
pub open spec fn full_chunk_reads(size: nat, chunk: nat) -> nat
    decreases size,
{
    if chunk < 1 || size == 0 {
        0
    } else if size <= chunk {
        1
    } else {
        1 + full_chunk_reads((size - chunk) as nat, chunk)
    }
}

/// Law: a source of `size` bytes that fills every chunk of `chunk` bytes is
/// drained in exactly `size / chunk` reads, rounded upward.
pub proof fn lemma_full_chunk_reads_ceil(size: nat, chunk: nat)
    requires
        chunk >= 1,
    ensures
        full_chunk_reads(size, chunk) == (size + chunk - 1) / (chunk as int),
    decreases size,
{
    if size == 0 {
        assert((chunk - 1) / (chunk as int) == 0) by (nonlinear_arith)
            requires
                chunk >= 1,
        ;
    } else if size <= chunk {
        assert((size + chunk - 1) / (chunk as int) == 1) by (nonlinear_arith)
            requires
                chunk >= 1 && 1 <= size <= chunk,
        ;
    } else {
        lemma_full_chunk_reads_ceil((size - chunk) as nat, chunk);
        assert((size - chunk + chunk - 1) / (chunk as int) + 1 == (size + chunk - 1) / (
        chunk as int)) by (nonlinear_arith)
            requires
                chunk >= 1 && size > chunk,
        ;
    }
}

} // verus!
