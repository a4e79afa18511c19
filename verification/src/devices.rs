//! Two sample devices built on the framework's contract.
//!
//! [`FixedReader`] exposes a fixed byte string: every open sees the whole
//! content, a read at position `pos` returns at most the requested count of
//! bytes starting there, and writing is unsupported. [`EchoBuffer`] is a
//! byte queue per open: a write appends its bytes, and a read drains up to
//! the requested count from the front.

use vstd::math::min;
use vstd::prelude::*;

use crate::device::MiscDev;
use crate::error::Error;

verus! {

/// A fresh buffer holding the same bytes as `v`.
fn copy_bytes(v: &Vec<u8>) -> (r: Vec<u8>)
    ensures
        r@ == v@,
{
    let mut r: Vec<u8> = Vec::new();
    let mut i: usize = 0;
    while i < v.len()
        invariant
            i <= v@.len(),
            r@ == v@.take(i as int),
        decreases v@.len() - i,
    {
        r.push(v[i]);
        i = i + 1;
        proof {
            assert(r@ =~= v@.take(i as int));
        }
    }
    proof {
        assert(r@ =~= v@);
    }
    r
}

/// A device that exposes a fixed byte string with position tracking.
///
/// The shared state is the content; each open takes its own copy as the
/// per-open state, so the content can never change under a reader.
pub struct FixedReader {}

/// The bytes a read of `count` bytes at position `pos` returns from
/// `content`, for `0 <= pos <= content.len()`: the slice from `pos` of at
/// most `count` bytes, cut off at the end of the content.
pub open spec fn fixed_read_bytes(content: Seq<u8>, count: int, pos: int) -> Seq<u8> {
    content.subrange(pos, min(pos + count, content.len() as int))
}

/// What [`FixedReader`]'s read returns: a negative position is a domain
/// error, a position at or past the end returns no bytes, and any other
/// position returns [`fixed_read_bytes`].
pub open spec fn fixed_read_result(content: Seq<u8>, count: int, pos: int) -> Result<
    Seq<u8>,
    Error,
> {
    if pos < 0 {
        Err(Error::ContractError)
    } else if pos > content.len() {
        Ok(Seq::empty())
    } else {
        Ok(fixed_read_bytes(content, count, pos))
    }
}

impl MiscDev for FixedReader {
    type Data = Vec<u8>;

    type OpenData = Vec<u8>;

    /// Opening yields the whole content.
    open spec fn open_spec(open_data: Seq<u8>) -> Result<Seq<u8>, Error> {
        Ok(open_data)
    }

    /// Reading slices the content by position and leaves it unchanged.
    open spec fn read_spec(context: Seq<u8>, count: usize, pos: i64) -> (
        Seq<u8>,
        Result<Seq<u8>, Error>,
    ) {
        (context, fixed_read_result(context, count as int, pos as int))
    }

    /// Writing is not supported by this device.
    open spec fn write_spec(context: Seq<u8>, data: Seq<u8>, pos: i64) -> (
        Seq<u8>,
        Result<usize, Error>,
    ) {
        (context, Err(Error::OperationUnsupported))
    }

    /// Releasing always succeeds.
    open spec fn release_spec(context: Seq<u8>) -> Result<(), Error> {
        Ok(())
    }

    /// Every open sees its own copy of the whole fixed content.
    fn open(open_data: &Vec<u8>) -> (r: Result<Vec<u8>, Error>) {
        Ok(copy_bytes(open_data))
    }

    /// Returns at most `count` bytes of the content starting at `pos`,
    /// leaving the content itself untouched.
    fn read(context: &mut Vec<u8>, count: usize, pos: i64) -> (r: Result<Vec<u8>, Error>) {
        if pos < 0 {
            return Err(Error::ContractError);
        }
        let len = context.len();
        if pos as u64 >= len as u64 {
            proof {
                assert(pos as int >= len);
                if pos == len {
                    assert(fixed_read_bytes(context@, count as int, pos as int) =~= Seq::<
                        u8,
                    >::empty());
                }
            }
            return Ok(Vec::new());
        }
        let start = pos as u64 as usize;
        let remaining = len - start;
        let take_n = if count < remaining {
            count
        } else {
            remaining
        };
        let mut out: Vec<u8> = Vec::new();
        let mut i: usize = 0;
        while i < take_n
            invariant
                i <= take_n,
                start + take_n <= context@.len() <= usize::MAX,
                context@ == old(context)@,
                out@ == context@.subrange(start as int, start + i),
            decreases take_n - i,
        {
            out.push(context[start + i]);
            i = i + 1;
            proof {
                assert(out@ =~= context@.subrange(start as int, start + i));
            }
        }
        proof {
            assert(out@ =~= fixed_read_bytes(context@, count as int, pos as int));
        }
        Ok(out)
    }

    /// This device takes no writes.
    fn write(context: &mut Vec<u8>, data: &Vec<u8>, pos: i64) -> (r: Result<usize, Error>) {
        Err(Error::OperationUnsupported)
    }

    /// The per-open copy simply ends; the content lives on in the shared
    /// state.
    fn release(context: Vec<u8>) -> (r: Result<(), Error>) {
        Ok(())
    }
}

/// A device whose per-open state is a byte queue: writes append at the
/// back, reads drain from the front.
pub struct EchoBuffer {}

/// How many bytes a read of `count` bytes drains from a queue of
/// `buffered` bytes.
pub open spec fn echo_drain_len(buffered: int, count: int) -> int {
    min(count, buffered)
}

impl MiscDev for EchoBuffer {
    type Data = Vec<u8>;

    type OpenData = Vec<u8>;

    /// Opening yields the initial queue supplied at registration.
    open spec fn open_spec(open_data: Seq<u8>) -> Result<Seq<u8>, Error> {
        Ok(open_data)
    }

    /// Reading drains up to `count` bytes from the front of the queue.
    open spec fn read_spec(context: Seq<u8>, count: usize, pos: i64) -> (
        Seq<u8>,
        Result<Seq<u8>, Error>,
    ) {
        (
            context.skip(echo_drain_len(context.len() as int, count as int)),
            Ok(context.take(echo_drain_len(context.len() as int, count as int))),
        )
    }

    /// Writing appends every byte at the back of the queue and takes them
    /// all.
    open spec fn write_spec(context: Seq<u8>, data: Seq<u8>, pos: i64) -> (
        Seq<u8>,
        Result<usize, Error>,
    ) {
        (context + data, Ok((data.len() as usize)))
    }

    /// Releasing always succeeds; what was not drained is dropped.
    open spec fn release_spec(context: Seq<u8>) -> Result<(), Error> {
        Ok(())
    }

    /// Each open starts its queue from the initial bytes supplied at
    /// registration.
    fn open(open_data: &Vec<u8>) -> (r: Result<Vec<u8>, Error>) {
        Ok(copy_bytes(open_data))
    }

    /// Drains up to `count` bytes from the front of the queue and returns
    /// them; the position is ignored, since the queue itself moves.
    fn read(context: &mut Vec<u8>, count: usize, pos: i64) -> (r: Result<Vec<u8>, Error>) {
        let len = context.len();
        let k = if count < len {
            count
        } else {
            len
        };
        let mut out: Vec<u8> = Vec::new();
        let mut i: usize = 0;
        while i < k
            invariant
                i <= k <= context@.len(),
                context@ == old(context)@,
                out@ == context@.take(i as int),
            decreases k - i,
        {
            out.push(context[i]);
            i = i + 1;
            proof {
                assert(out@ =~= context@.take(i as int));
            }
        }
        let mut rest: Vec<u8> = Vec::new();
        let mut j: usize = k;
        while j < len
            invariant
                k <= j <= len == context@.len(),
                context@ == old(context)@,
                rest@ == context@.subrange(k as int, j as int),
            decreases len - j,
        {
            rest.push(context[j]);
            j = j + 1;
            proof {
                assert(rest@ =~= context@.subrange(k as int, j as int));
            }
        }
        proof {
            assert(rest@ =~= context@.skip(k as int));
        }
        *context = rest;
        Ok(out)
    }

    /// Appends every supplied byte to the back of the queue and reports
    /// the full count as taken; the position is ignored.
    fn write(context: &mut Vec<u8>, data: &Vec<u8>, pos: i64) -> (r: Result<usize, Error>) {
        let mut i: usize = 0;
        while i < data.len()
            invariant
                i <= data@.len(),
                context@ == old(context)@ + data@.take(i as int),
            decreases data@.len() - i,
        {
            context.push(data[i]);
            i = i + 1;
            proof {
                assert(context@ =~= old(context)@ + data@.take(i as int));
            }
        }
        proof {
            assert(context@ =~= old(context)@ + data@);
        }
        Ok(data.len())
    }

    /// The queue ends with the open; whatever was not drained is dropped.
    fn release(context: Vec<u8>) -> (r: Result<(), Error>) {
        Ok(())
    }
}

/// Two sequential reads of the fixed-content device are
/// concatenation-consistent: when the second read starts exactly where the
/// first one left off — as the read shim arranges by advancing the file
/// position by exactly the returned count — the two slices together are one
/// contiguous slice of the content, with no byte skipped or duplicated.
pub proof fn lemma_fixed_reads_concatenate(content: Seq<u8>, pos: int, count1: int, count2: int)
    requires
        0 <= pos <= content.len(),
        0 <= count1,
        0 <= count2,
    ensures
        ({
            let s1 = fixed_read_bytes(content, count1, pos);
            let s2 = fixed_read_bytes(content, count2, pos + s1.len());
            s1 + s2 == content.subrange(pos, pos + s1.len() + s2.len())
        }),
{
    let s1 = fixed_read_bytes(content, count1, pos);
    let s2 = fixed_read_bytes(content, count2, pos + s1.len());
    assert(s1 + s2 =~= content.subrange(pos, pos + s1.len() + s2.len()));
}

} // verus!
