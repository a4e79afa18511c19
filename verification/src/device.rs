//! The polymorphic device contract: the extension point that device
//! implementations supply.
//!
//! An implementation chooses a per-device shared state type (`OpenData`,
//! supplied once at registration and borrowed by every open) and a per-open
//! state type (`Data`, created by `open`, borrowed by `read` and `write`,
//! and consumed by `release`). Beside the four executable methods, an
//! implementation states what each of them does as a specification
//! function over the views of its state types; each method's contract ties
//! its result to that function, which is what lets the dispatch shims
//! promise, for every device, that the status they hand the host reflects
//! the device's own verdict.

use vstd::prelude::*;

use crate::error::Error;

verus! {

/// The callback contract of a miscellaneous device.
///
/// The dispatch shims deliver the host's file operations to these methods:
/// `open` builds the per-open state from a borrow of the shared state,
/// `read` and `write` see that state through an exclusive borrow for the
/// duration of one callback, and `release` consumes it. A device that does
/// not support an operation implements it returning
/// [`Error::OperationUnsupported`], as the fixed-content sample does for
/// writes.
///
/// A reader may not return more bytes than were requested and a writer may
/// not claim more bytes than it was handed: the shims copy into a
/// destination sized by the request and advance the file position by the
/// reported count, so both bounds are contract obligations on every
/// implementation.
pub trait MiscDev {
    /// The per-open state, owned by the host as an opaque handle between
    /// open and release.
    type Data: View;

    /// The per-device shared state, supplied at registration and borrowed
    /// by every open.
    type OpenData: View;

    /// What `open` answers, over the view of the shared state: the view
    /// of the per-open state it builds, or the error it reports.
    spec fn open_spec(open_data: <Self::OpenData as View>::V) -> Result<
        <Self::Data as View>::V,
        Error,
    >;

    /// What `read` does, over the view of the per-open state: the state's
    /// view afterwards, and the bytes supplied or the error reported.
    spec fn read_spec(context: <Self::Data as View>::V, count: usize, pos: i64) -> (
        <Self::Data as View>::V,
        Result<Seq<u8>, Error>,
    );

    /// What `write` does, over the view of the per-open state: the state's
    /// view afterwards, and the byte count taken or the error reported.
    spec fn write_spec(context: <Self::Data as View>::V, data: Seq<u8>, pos: i64) -> (
        <Self::Data as View>::V,
        Result<usize, Error>,
    );

    /// What `release` answers, over the view of the per-open state it
    /// consumes.
    spec fn release_spec(context: <Self::Data as View>::V) -> Result<(), Error>;

    /// A device file is being opened: build the per-open state from the
    /// shared state, or fail with the error the host should report.
    fn open(open_data: &Self::OpenData) -> (r: Result<Self::Data, Error>)
        ensures
            (match r {
                Ok(d) => Self::open_spec(open_data@) == Ok::<<Self::Data as View>::V, Error>(d@),
                Err(e) => Self::open_spec(open_data@) == Err::<<Self::Data as View>::V, Error>(e),
            }),
    ;

    /// A read of at most `count` bytes at position `pos`: return the bytes
    /// the device supplies, never more than were requested.
    fn read(context: &mut Self::Data, count: usize, pos: i64) -> (r: Result<Vec<u8>, Error>)
        ensures
            r matches Ok(buf) ==> buf@.len() <= count,
            ({
                let (d2, sr) = Self::read_spec(old(context)@, count, pos);
                final(context)@ == d2 && (match r {
                    Ok(buf) => sr == Ok::<Seq<u8>, Error>(buf@),
                    Err(e) => sr == Err::<Seq<u8>, Error>(e),
                })
            }),
    ;

    /// A write of the bytes in `data` at position `pos`: return how many
    /// bytes were taken, never more than were handed in.
    fn write(context: &mut Self::Data, data: &Vec<u8>, pos: i64) -> (r: Result<usize, Error>)
        ensures
            r matches Ok(n) ==> n <= data@.len(),
            ({
                let (d2, sr) = Self::write_spec(old(context)@, data@, pos);
                final(context)@ == d2 && sr == r
            }),
    ;

    /// The last handle on an open file is closed: the per-open state
    /// returns to the framework and its lifetime ends here.
    fn release(context: Self::Data) -> (r: Result<(), Error>)
        ensures
            r == Self::release_spec(context@),
    ;
}

} // verus!
