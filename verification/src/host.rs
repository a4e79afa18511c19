//! The host-owned memory that callbacks touch: the per-open file object,
//! the user-space buffer a read or write names, and the checked byte copies
//! across the host/user boundary.
//!
//! These values belong to the host, so their fields are public: the host
//! (or a harness standing in for it) builds them and hands them to the
//! dispatch shims. A boundary copy is never assumed to be a plain memory
//! copy — the user-side range may be invalid, which the buffer's `fault`
//! flag models — so both copies report full success or a fault, and a
//! faulting copy leaves the destination untouched.

use vstd::prelude::*;

use crate::foreign::ForeignHandle;

verus! {

/// The host's per-open file object: the opaque per-open handle the host
/// stores for the framework, and the monotonic position counter.
pub struct File<D> {
    /// The opaque handle to the per-open state, stored by a successful
    /// open and retired by release; absent outside that window.
    pub private_data: Option<ForeignHandle<D>>,
    /// The file position; advanced only by a successful read or write.
    pub f_pos: i64,
}

impl<D> File<D> {
    /// A fresh file object, as the host presents it to an open callback:
    /// no per-open handle yet, position zero.
    pub fn new() -> (f: Self)
        ensures
            f.private_data is None,
            f.f_pos == 0,
    {
        File { private_data: None, f_pos: 0 }
    }
}

/// A range of user-space memory: its bytes, and whether accessing the
/// range faults. A faulting range fails every boundary copy that names it.
pub struct UserBuffer {
    /// The bytes the range holds.
    pub data: Vec<u8>,
    /// Whether any access to the range faults.
    pub fault: bool,
}

/// Copies all of `src` to the start of the user-space range `dst`.
/// Succeeds exactly when the range is accessible and large enough; on
/// success the copied bytes form the new prefix of the range and the rest
/// is untouched, and on failure the range is untouched entirely.
pub fn copy_to_user(dst: &mut UserBuffer, src: &Vec<u8>) -> (ok: bool)
    ensures
        ok <==> !old(dst).fault && src@.len() <= old(dst).data@.len(),
        final(dst).fault == old(dst).fault,
        final(dst).data@.len() == old(dst).data@.len(),
        ok ==> final(dst).data@ == src@ + old(dst).data@.skip(src@.len() as int),
        !ok ==> *final(dst) == *old(dst),
{
    if dst.fault || src.len() > dst.data.len() {
        return false;
    }
    let n = src.len();
    let mut i: usize = 0;
    while i < n
        invariant
            i <= n,
            n == src@.len() <= dst.data@.len(),
            dst.fault == old(dst).fault,
            dst.data@.len() == old(dst).data@.len(),
            dst.data@ == src@.take(i as int) + old(dst).data@.skip(i as int),
        decreases n - i,
    {
        let b = src[i];
        dst.data.set(i, b);
        i = i + 1;
        proof {
            assert(dst.data@ =~= src@.take(i as int) + old(dst).data@.skip(i as int));
        }
    }
    proof {
        assert(dst.data@ =~= src@ + old(dst).data@.skip(n as int));
    }
    true
}

/// Copies `count` bytes from the start of the user-space range `src` into a
/// fresh framework-owned buffer. Succeeds exactly when the range is
/// accessible and holds at least `count` bytes.
pub fn copy_from_user(src: &UserBuffer, count: usize) -> (r: Option<Vec<u8>>)
    ensures
        r is Some <==> !src.fault && count <= src.data@.len(),
        r matches Some(v) ==> v@ == src.data@.take(count as int),
{
    if src.fault || count > src.data.len() {
        return None;
    }
    let mut buf: Vec<u8> = Vec::new();
    let mut i: usize = 0;
    while i < count
        invariant
            i <= count,
            count <= src.data@.len(),
            buf@ == src.data@.take(i as int),
        decreases count - i,
    {
        buf.push(src.data[i]);
        i = i + 1;
        proof {
            assert(buf@ =~= src.data@.take(i as int));
        }
    }
    Some(buf)
}

} // verus!
