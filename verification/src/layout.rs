//! Back-reference recovery: address arithmetic that recovers the address of
//! an enclosing object from the address of a field embedded in it.
//!
//! The host's open callback receives only the address of the descriptor
//! field embedded in a registration object, never the address of the object
//! itself, so the enclosing object must be found by subtracting the field's
//! byte offset. Addresses and offsets are plain integers here; the
//! computation never dereferences anything, so it is valid even while the
//! enclosing object's storage is uninitialized. The caller must guarantee
//! that the supplied address really is the address of that field of a live
//! instance; recovery itself performs no check.

use vstd::prelude::*;

verus! {

/// The address of a field that lies `offset` bytes into an object placed at
/// `base`.
pub open spec fn spec_field_address(base: int, offset: int) -> int {
    base + offset
}

/// The address of the enclosing object, recovered from the address of a
/// field that lies `offset` bytes into it.
pub open spec fn spec_container_of(field_addr: int, offset: int) -> int {
    field_addr - offset
}

/// Computes the address of a field from the address of its enclosing
/// object and the field's byte offset.
pub fn field_address(base: usize, offset: usize) -> (addr: usize)
    requires
        base + offset <= usize::MAX,
    ensures
        addr == spec_field_address(base as int, offset as int),
{
    base + offset
}

/// Recovers the address of the enclosing object from the address of a field
/// that lies `offset` bytes into it.
pub fn container_of(field_addr: usize, offset: usize) -> (base: usize)
    requires
        offset <= field_addr,
    ensures
        base == spec_container_of(field_addr as int, offset as int),
{
    field_addr - offset
}

/// Recovery is exact: for every object address and every field offset that
/// a real instance can have, recovering the enclosing object from the
/// field's address yields the original address itself, not merely some
/// nearby one.
pub proof fn lemma_container_of_recovers(base: usize, offset: usize)
    requires
        base + offset <= usize::MAX,
    ensures
        spec_container_of(spec_field_address(base as int, offset as int), offset as int)
            == base as int,
{
}

} // verus!
