//! The ownership-transfer protocol: a typed value is consumed into an
//! opaque handle that the host can store, borrowed from that handle while
//! the host holds it, and finally reconstructed from it exactly once.
//!
//! The handle stands for the untyped pointer that crosses the callback
//! boundary. Consuming the handle to reconstruct the value makes the
//! exactly-once rule a fact of ownership: once `from_foreign` has run, the
//! handle is gone and no later borrow can observe it.

use vstd::prelude::*;

verus! {

/// An opaque, host-transportable handle that owns a value of type `D`.
pub struct ForeignHandle<D> {
    value: D,
}

/// The handle that owns `value`; what `into_foreign` returns.
pub closed spec fn spec_wrap<D>(value: D) -> ForeignHandle<D> {
    ForeignHandle { value }
}

impl<D> ForeignHandle<D> {
    /// The value this handle owns.
    pub closed spec fn spec_value(self) -> D {
        self.value
    }

    /// Consumes a value and returns the opaque handle that now owns it.
    /// The value is not dropped; responsibility for its destruction moves
    /// to whoever later calls [`Self::from_foreign`].
    pub fn into_foreign(value: D) -> (h: Self)
        ensures
            h == spec_wrap(value),
            h.spec_value() == value,
    {
        ForeignHandle { value }
    }

    /// A temporary, non-owning view of the owned value, valid for the
    /// duration of the current callback invocation.
    pub fn borrow(&self) -> (r: &D)
        ensures
            *r == self.spec_value(),
    {
        &self.value
    }

    /// An exclusive view of the owned value for the duration of the
    /// current callback invocation. Concurrent host callbacks that share
    /// one handle must serialize their access to it; this model expresses
    /// that critical section as an exclusive borrow.
    pub fn borrow_mut(&mut self) -> (r: &mut D)
        ensures
            *r == old(self).spec_value(),
            final(self).spec_value() == *final(r),
    {
        &mut self.value
    }

    /// Reconstructs the owning value from the handle. The handle is
    /// consumed: ownership of the value's destruction returns to the
    /// caller, and no later operation can use the handle again.
    pub fn from_foreign(self) -> (value: D)
        ensures
            value == self.spec_value(),
    {
        self.value
    }
}

/// Round trip: consuming a value into a handle and reconstructing it yields
/// the value itself, and a borrow taken while the host holds the handle
/// observes exactly that value — never a partially constructed one.
/// `into_foreign` returns `spec_wrap(value)`, `borrow` returns a view of
/// `spec_value()`, and `from_foreign` returns `spec_value()` itself.
pub proof fn lemma_foreign_round_trip<D>(value: D)
    ensures
        spec_wrap(value).spec_value() == value,
{
}

} // verus!
