//! The framework's error kinds and their mapping onto the host's numeric
//! status convention.
//!
//! Every failure a callback or a registration call can report is one of
//! these kinds, and each kind is mapped one-to-one onto a distinct negative
//! status code, following the host's errno conventions. Successes that carry
//! a byte count are returned as that non-negative count, so a status is an
//! error exactly when it is negative.

use vstd::prelude::*;

verus! {

/// A failure of the framework or of a device implementation.
#[derive(Clone, Copy, Debug, PartialEq, Eq, Structural)]
pub enum Error {
    /// A registration was attempted on an instance that is already
    /// registered.
    AlreadyRegistered,
    /// The host refused to publish the device descriptor.
    RegistrationFailed,
    /// The device implementation does not supply the requested operation.
    OperationUnsupported,
    /// A byte copy across the host/user memory boundary failed.
    BoundaryCopyFault,
    /// An internal buffer could not be allocated.
    AllocationFailure,
    /// A domain error raised by the device implementation, opaque to the
    /// framework.
    ContractError,
}

impl Error {
    /// The host status code of this error: a distinct negative integer for
    /// each kind, following the host's errno numbering (EBUSY, ENODEV,
    /// EINVAL, EFAULT, ENOMEM, EIO).
    pub open spec fn spec_status(self) -> int {
        match self {
            Error::AlreadyRegistered => -16,
            Error::RegistrationFailed => -19,
            Error::OperationUnsupported => -22,
            Error::BoundaryCopyFault => -14,
            Error::AllocationFailure => -12,
            Error::ContractError => -5,
        }
    }

    /// Converts this error into the host's status convention.
    pub fn to_status(&self) -> (s: i32)
        ensures
            s == self.spec_status(),
            s < 0,
    {
        match self {
            Error::AlreadyRegistered => -16,
            Error::RegistrationFailed => -19,
            Error::OperationUnsupported => -22,
            Error::BoundaryCopyFault => -14,
            Error::AllocationFailure => -12,
            Error::ContractError => -5,
        }
    }
}

/// Holds exactly when `s` is the status code of some error kind.
pub open spec fn is_error_status(s: int) -> bool {
    exists|e: Error| s == #[trigger] e.spec_status()
}

/// The status mapping is one-to-one: two error kinds with the same status
/// code are the same kind.
pub proof fn lemma_status_injective(a: Error, b: Error)
    ensures
        a.spec_status() == b.spec_status() ==> a == b,
{
}

/// Every status code of an error kind is negative, so a non-negative
/// status can never be mistaken for a failure.
pub proof fn lemma_error_status_negative(e: Error)
    ensures
        e.spec_status() < 0,
        is_error_status(e.spec_status()),
{
}

} // verus!
