//! The registration object and its dispatch shims.
//!
//! A [`Registration`] owns the host-visible device descriptor, the shared
//! per-device state, and the registered/unregistered flag. Registering
//! populates the descriptor and asks the host to publish it; the host's
//! verdict arrives as a status argument, and on refusal every local change
//! is rolled back before the failure is surfaced, so registration is
//! all-or-nothing. Deregistering withdraws the descriptor and destroys the
//! shared state, in the converse order of construction.
//!
//! The four shims are the sole translation points between host values and
//! the [`MiscDev`] contract: they unpack the host's file object, move the
//! per-open state across the boundary through [`ForeignHandle`], perform
//! the boundary copies, and map every failure onto the host's negative
//! status convention — some well-formed status is returned on every path.
//! Each shim's contract states what it hands the device — the stored
//! shared state, the handle's owned per-open state, the copied bytes —
//! and what its status and effects are for every answer the device's
//! specification functions allow, so a concrete device pins every shim
//! outcome exactly.

use vstd::prelude::*;
use vstd::pervasive::unreached;

use crate::device::MiscDev;
use crate::error::{is_error_status, Error};
use crate::foreign::ForeignHandle;
use crate::host::{copy_from_user, copy_to_user, File, UserBuffer};

verus! {

/// The minor-number sentinel that asks the host to assign a minor number
/// dynamically.
pub const MISC_DYNAMIC_MINOR: i32 = 255;

/// The characters of the device name that a registration publishes.
pub open spec fn spec_device_name() -> Seq<char> {
    "rchrdev"@
}

/// The device name that a registration publishes.
pub fn device_name() -> (s: &'static str)
    ensures
        s@ == spec_device_name(),
{
    "rchrdev"
}

/// The callback table a registration installs: one flag per file-operation
/// slot, true when the slot is wired. Open, read, write and release point
/// at the dispatch shims; seek is wired to the host's no-op default; every
/// other slot is left absent so the host applies its own default.
#[derive(Clone, Copy, Debug, PartialEq, Eq, Structural)]
pub struct FileOperations {
    /// The open slot.
    pub open: bool,
    /// The read slot.
    pub read: bool,
    /// The write slot.
    pub write: bool,
    /// The release slot.
    pub release: bool,
    /// The seek slot, wired to the host's no-op seek.
    pub llseek: bool,
}

/// The callback table that every registration installs.
pub open spec fn spec_file_operations() -> FileOperations {
    FileOperations { open: true, read: true, write: true, release: true, llseek: true }
}

/// Builds the callback table that every registration installs.
pub fn file_operations() -> (f: FileOperations)
    ensures
        f == spec_file_operations(),
{
    FileOperations { open: true, read: true, write: true, release: true, llseek: true }
}

/// The host-visible device descriptor: written once at registration time,
/// cleared again when the registration is withdrawn or rolled back.
pub struct Descriptor {
    /// The device name.
    pub name: &'static str,
    /// The minor number, or [`MISC_DYNAMIC_MINOR`] to let the host choose.
    pub minor: i32,
    /// The callback table, present exactly while the descriptor is
    /// populated.
    pub fops: Option<FileOperations>,
}

/// Registration for a miscellaneous device of callback type `T`.
///
/// One instance per registered device. Exactly the first successful
/// `register` call publishes the descriptor; every later call fails with
/// [`Error::AlreadyRegistered`] and changes nothing. Once the host holds
/// the descriptor's address the instance must stay where it is, which is
/// why a registered instance is reached only through the stable allocation
/// that [`Registration::new_pinned_registered`] returns.
pub struct Registration<T: MiscDev> {
    /// Whether the host currently holds this descriptor.
    registered: bool,
    /// The host-visible descriptor.
    miscdev: Descriptor,
    /// The per-device shared state; present exactly while registered.
    open_data: Option<T::OpenData>,
}

/// Whether a `register` call succeeds, from the instance's registered flag
/// and the host's verdict on publishing the descriptor.
pub open spec fn spec_register_succeeds(registered: bool, host_status: int) -> bool {
    !registered && host_status >= 0
}

/// The registered flag after a `register` call, from the flag before it
/// and the host's verdict.
pub open spec fn spec_register_next(registered: bool, host_status: int) -> bool {
    registered || (!registered && host_status >= 0)
}

/// The registered flag after a whole sequence of `register` calls on one
/// initially unregistered instance, given the host's verdicts.
pub open spec fn spec_registered_after(statuses: Seq<int>) -> bool
    decreases statuses.len(),
{
    if statuses.len() == 0 {
        false
    } else {
        spec_register_next(spec_registered_after(statuses.drop_last()), statuses.last())
    }
}

impl<T: MiscDev> Registration<T> {
    /// Whether the host currently holds this instance's descriptor.
    pub closed spec fn spec_registered(self) -> bool {
        self.registered
    }

    /// The shared per-device state, present exactly while registered.
    pub closed spec fn spec_open_data(self) -> Option<T::OpenData> {
        self.open_data
    }

    /// The host-visible descriptor.
    pub closed spec fn spec_descriptor(self) -> Descriptor {
        self.miscdev
    }

    /// The instance's invariant: the shared state is initialized exactly
    /// while the host holds the descriptor.
    pub open spec fn spec_wf(self) -> bool {
        self.spec_registered() <==> self.spec_open_data() is Some
    }

    /// The state a successful registration establishes: the descriptor is
    /// populated with the device name, the dynamic-minor sentinel and the
    /// callback table, and the shared state is stored in place.
    pub open spec fn spec_registered_as(self, data: T::OpenData) -> bool {
        &&& self.spec_registered()
        &&& self.spec_open_data() == Some(data)
        &&& self.spec_descriptor().name@ == spec_device_name()
        &&& self.spec_descriptor().minor == MISC_DYNAMIC_MINOR
        &&& self.spec_descriptor().fops == Some(spec_file_operations())
    }

    /// The state of an instance with no host-visible footprint: not
    /// registered, no shared state, descriptor cleared.
    pub open spec fn spec_unregistered_reset(self) -> bool {
        &&& !self.spec_registered()
        &&& self.spec_open_data() is None
        &&& self.spec_descriptor().name@ =~= Seq::<char>::empty()
        &&& self.spec_descriptor().minor == 0
        &&& self.spec_descriptor().fops is None
    }

    /// Registers the device with the host. `host_status` is the host's
    /// verdict on publishing the descriptor: negative for refusal, as the
    /// host's register call reports it.
    ///
    /// Exactly the first call on an unregistered instance with a willing
    /// host succeeds. A call on a registered instance fails with
    /// [`Error::AlreadyRegistered`] and leaves the state unchanged. When
    /// the host refuses, every local change is rolled back — the shared
    /// state is released, the flag stays false — before
    /// [`Error::RegistrationFailed`] is surfaced.
    pub fn register(&mut self, data: T::OpenData, host_status: i32) -> (r: Result<(), Error>)
        requires
            old(self).spec_wf(),
        ensures
            final(self).spec_wf(),
            r is Ok <==> spec_register_succeeds(old(self).spec_registered(), host_status as int),
            final(self).spec_registered() == spec_register_next(
                old(self).spec_registered(),
                host_status as int,
            ),
            old(self).spec_registered() ==> r == Err::<(), Error>(Error::AlreadyRegistered)
                && *final(self) == *old(self),
            !old(self).spec_registered() && host_status < 0 ==> r == Err::<(), Error>(
                Error::RegistrationFailed,
            ) && final(self).spec_unregistered_reset(),
            r is Ok ==> final(self).spec_registered_as(data),
    {
        if self.registered {
            return Err(Error::AlreadyRegistered);
        }

        // Populate the descriptor and store the shared state in place, then
        // ask the host to publish the descriptor.
        self.miscdev.minor = MISC_DYNAMIC_MINOR;
        self.miscdev.name = device_name();
        self.miscdev.fops = Some(file_operations());
        self.registered = true;
        self.open_data = Some(data);

        if host_status < 0 {
            // The host refused: revert every local change before surfacing
            // the failure, so nothing is leaked and nothing stays visible.
            self.registered = false;
            self.open_data = None;
            self.miscdev = empty_descriptor();
            return Err(Error::RegistrationFailed);
        }

        Ok(())
    }

    /// Withdraws the descriptor from the host and destroys the shared
    /// state — the converse order of construction. Acts only on a
    /// registered instance; afterwards the host delivers no further
    /// callbacks for this device, so the instance has no host-visible
    /// footprint and its storage may be reclaimed.
    pub fn deregister(&mut self)
        requires
            old(self).spec_wf(),
        ensures
            final(self).spec_wf(),
            !final(self).spec_registered(),
            final(self).spec_open_data() is None,
            old(self).spec_registered() ==> final(self).spec_unregistered_reset(),
            !old(self).spec_registered() ==> *final(self) == *old(self),
    {
        if self.registered {
            self.registered = false;
            self.open_data = None;
            self.miscdev = empty_descriptor();
        }
    }

    /// Builds a fresh instance in a stable allocation, registers it, and
    /// returns it pinned there. `host_status` is the host's verdict on
    /// publishing the descriptor. On refusal nothing is leaked and no
    /// host-visible footprint remains.
    pub fn new_pinned_registered(data: T::OpenData, host_status: i32) -> (r: Result<
        Box<Self>,
        Error,
    >)
        ensures
            r is Ok <==> host_status >= 0,
            r matches Ok(b) ==> b.spec_wf() && b.spec_registered_as(data),
            r matches Err(e) ==> e == Error::RegistrationFailed,
    {
        let mut registration = Registration::<T>::default();
        match registration.register(data, host_status) {
            Ok(()) => Ok(Box::new(registration)),
            Err(e) => Err(e),
        }
    }

    /// Whether the host currently holds this instance's descriptor.
    pub fn is_registered(&self) -> (b: bool)
        ensures
            b == self.spec_registered(),
    {
        self.registered
    }

    /// The name the descriptor currently carries.
    pub fn name(&self) -> (s: &'static str)
        ensures
            s@ == self.spec_descriptor().name@,
    {
        self.miscdev.name
    }

    /// The minor number the descriptor currently carries.
    pub fn minor(&self) -> (m: i32)
        ensures
            m == self.spec_descriptor().minor,
    {
        self.miscdev.minor
    }
}

impl<T: MiscDev> Registration<T> {
    /// The open shim. The host opened a device file: build the per-open
    /// state by delegating to [`MiscDev::open`] on the stored shared
    /// state, and on success transfer its ownership into the opaque
    /// handle stored in the file object. On failure nothing is stored —
    /// the open instance never comes into being — and the device's error
    /// is reported in the host's status convention.
    ///
    /// The status is zero exactly when [`MiscDev::open_spec`], applied to
    /// the stored shared state, answers success; the stored handle then
    /// owns the very per-open state the device returned, and a device
    /// error comes back as its one-to-one negative code.
    ///
    /// The host guarantees that callbacks are delivered only between
    /// registration and deregistration, and that each open call sees a
    /// fresh file object.
    pub fn open_callback(&self, file: &mut File<T::Data>) -> (status: i32)
        requires
            self.spec_wf(),
            self.spec_registered(),
            old(file).private_data is None,
        ensures
            status == 0 || is_error_status(status as int),
            final(file).f_pos == old(file).f_pos,
            status == 0 ==> final(file).private_data is Some,
            status != 0 ==> *final(file) == *old(file),
            (match T::open_spec(self.spec_open_data()->0@) {
                Ok(d) => status == 0 && final(file).private_data is Some
                    && final(file).private_data->0.spec_value()@ == d,
                Err(e) => status == e.spec_status(),
            }),
    {
        let open_data = match &self.open_data {
            Some(open_data) => open_data,
            None => unreached(),
        };
        match T::open(open_data) {
            Ok(data) => {
                // Transfer ownership of the per-open state to the host.
                file.private_data = Some(ForeignHandle::into_foreign(data));
                0
            },
            Err(e) => e.to_status(),
        }
    }

    /// The read shim. Borrows the per-open state from the stored handle —
    /// never takes ownership — and delegates to [`MiscDev::read`] at the
    /// file's position. The returned bytes are copied across the boundary
    /// into the user-space destination; only on a successful copy is the
    /// position advanced, by exactly the byte count that is returned. On a
    /// copy fault the position is untouched and a fault status is
    /// returned; on a device error the device's status is returned and the
    /// user-space range is untouched.
    ///
    /// The contract follows the device's own verdict, via
    /// [`MiscDev::read_spec`] applied to the handle's complete owned state
    /// — the very view the device's read receives: afterwards the handle
    /// owns the state the device left behind; bytes the device supplied
    /// land, on a successful copy, as the new prefix of the user range,
    /// with the status equal to their count; a destination the bytes do
    /// not fit, like a faulting one, yields the boundary-fault code; and a
    /// device error comes back as its one-to-one negative code.
    pub fn read_callback(file: &mut File<T::Data>, user: &mut UserBuffer, count: usize) -> (status:
        i64)
        requires
            old(file).private_data is Some,
            0 <= old(file).f_pos,
            old(file).f_pos + count <= i64::MAX,
        ensures
            final(file).private_data is Some,
            status >= 0 || is_error_status(status as int),
            final(user).fault == old(user).fault,
            final(user).data@.len() == old(user).data@.len(),
            status >= 0 ==> status <= count && final(file).f_pos == old(file).f_pos + status,
            status < 0 ==> final(file).f_pos == old(file).f_pos && *final(user) == *old(user),
            old(user).fault ==> status < 0,
            status >= 0 ==> final(user).data@.skip(status as int) == old(user).data@.skip(
                status as int,
            ),
            ({
                let (d2, sr) = T::read_spec(
                    old(file).private_data->0.spec_value()@,
                    count,
                    old(file).f_pos,
                );
                final(file).private_data->0.spec_value()@ == d2 && (match sr {
                    Ok(bytes) => {
                        if !old(user).fault && bytes.len() <= old(user).data@.len() {
                            status == bytes.len() && final(user).data@ == bytes + old(
                                user,
                            ).data@.skip(bytes.len() as int)
                        } else {
                            status == Error::BoundaryCopyFault.spec_status()
                        }
                    },
                    Err(e) => status == e.spec_status(),
                })
            }),
    {
        let handle = match &mut file.private_data {
            Some(handle) => handle,
            None => unreached(),
        };
        let data = handle.borrow_mut();
        let device_buf = match T::read(data, count, file.f_pos) {
            Ok(device_buf) => device_buf,
            Err(e) => {
                return e.to_status() as i64;
            },
        };
        // Copy the device's bytes across the host/user boundary.
        if copy_to_user(user, &device_buf) {
            let len = device_buf.len();
            file.f_pos = file.f_pos + len as i64;
            len as i64
        } else {
            Error::BoundaryCopyFault.to_status() as i64
        }
    }

    /// The write shim. Copies the user-space source bytes across the
    /// boundary into an internal buffer sized exactly to the requested
    /// length — an allocation refusal is reported as
    /// [`Error::AllocationFailure`], not retried, and a copy fault as
    /// [`Error::BoundaryCopyFault`] — then borrows the per-open state and
    /// delegates to [`MiscDev::write`]. On success the position advances
    /// by exactly the byte count the device took, and that count is
    /// returned.
    ///
    /// Past the two pre-call faults, the contract follows the device's
    /// own verdict, via [`MiscDev::write_spec`] applied to the handle's
    /// complete owned state and the copied bytes — exactly what the
    /// device's write receives: afterwards the handle owns the state the
    /// device left behind, a taken count comes back as the status, and a
    /// device error comes back as its one-to-one negative code.
    pub fn write_callback(
        file: &mut File<T::Data>,
        user: &UserBuffer,
        count: usize,
        alloc_ok: bool,
    ) -> (status: i64)
        requires
            old(file).private_data is Some,
            0 <= old(file).f_pos,
            old(file).f_pos + count <= i64::MAX,
        ensures
            final(file).private_data is Some,
            status >= 0 || is_error_status(status as int),
            !alloc_ok ==> status == Error::AllocationFailure.spec_status() && *final(file) == *old(
                file,
            ),
            alloc_ok && (user.fault || count > user.data@.len()) ==> status
                == Error::BoundaryCopyFault.spec_status() && *final(file) == *old(file),
            status >= 0 ==> status <= count && final(file).f_pos == old(file).f_pos + status,
            status < 0 ==> final(file).f_pos == old(file).f_pos,
            alloc_ok && !user.fault && count <= user.data@.len() ==> ({
                let (d2, sr) = T::write_spec(
                    old(file).private_data->0.spec_value()@,
                    user.data@.take(count as int),
                    old(file).f_pos,
                );
                final(file).private_data->0.spec_value()@ == d2 && (match sr {
                    Ok(n) => status == n,
                    Err(e) => status == e.spec_status(),
                })
            }),
    {
        // Size an internal buffer to the requested length; the allocator's
        // refusal is surfaced as a fault, never retried.
        if !alloc_ok {
            return Error::AllocationFailure.to_status() as i64;
        }
        let buffer = match copy_from_user(user, count) {
            Some(buffer) => buffer,
            None => {
                return Error::BoundaryCopyFault.to_status() as i64;
            },
        };
        let handle = match &mut file.private_data {
            Some(handle) => handle,
            None => unreached(),
        };
        let data = handle.borrow_mut();
        match T::write(data, &buffer, file.f_pos) {
            Ok(written) => {
                file.f_pos = file.f_pos + written as i64;
                written as i64
            },
            Err(e) => e.to_status() as i64,
        }
    }

    /// The release shim. Takes ownership — not a borrow — of the per-open
    /// state back out of the stored handle, exactly once, and hands it to
    /// [`MiscDev::release`] to end its lifetime. Afterwards the handle is
    /// retired: the file object holds nothing, and no later callback can
    /// reach the released state.
    ///
    /// The contract follows the device's own verdict, via
    /// [`MiscDev::release_spec`] applied to the handle's complete owned
    /// state — the very value the device's release consumes: success maps
    /// to a zero status, and a device error comes back as its one-to-one
    /// negative code.
    pub fn release_callback(file: &mut File<T::Data>) -> (status: i32)
        requires
            old(file).private_data is Some,
        ensures
            final(file).private_data is None,
            final(file).f_pos == old(file).f_pos,
            status == 0 || is_error_status(status as int),
            (match T::release_spec(old(file).private_data->0.spec_value()@) {
                Ok(u) => status == 0,
                Err(e) => status == e.spec_status(),
            }),
    {
        let handle = match file.private_data.take() {
            Some(handle) => handle,
            None => unreached(),
        };
        let data = handle.from_foreign();
        match T::release(data) {
            Ok(()) => 0,
            Err(e) => e.to_status(),
        }
    }
}

impl<T: MiscDev> Default for Registration<T> {
    /// An unregistered instance with no host-visible footprint.
    fn default() -> (r: Self)
        ensures
            r.spec_wf(),
            r.spec_unregistered_reset(),
    {
        Registration { registered: false, miscdev: empty_descriptor(), open_data: None }
    }
}

/// A cleared descriptor: the state before registration populates it and
/// after rollback or deregistration clears it again.
fn empty_descriptor() -> (d: Descriptor)
    ensures
        d.name@ =~= Seq::<char>::empty(),
        d.minor == 0,
        d.fops is None,
{
    proof {
        reveal_strlit("");
    }
    Descriptor { name: "", minor: 0, fops: None }
}

/// Once an instance has become registered, any further `register` calls
/// leave it registered, whatever the host answers.
pub proof fn lemma_registration_is_stable(statuses: Seq<int>, i: int, j: int)
    requires
        0 <= i <= j <= statuses.len(),
        spec_registered_after(statuses.take(i)),
    ensures
        spec_registered_after(statuses.take(j)),
    decreases j - i,
{
    if i < j {
        assert(statuses.take(i + 1).drop_last() =~= statuses.take(i));
        assert(statuses.take(i + 1).last() == statuses[i]);
        lemma_registration_is_stable(statuses, i + 1, j);
    }
}

/// For every sequence of `register` calls on one initially unregistered
/// instance, only the first successful call succeeds: once call `i` has
/// succeeded, every later call finds the instance registered and so fails
/// — with [`Error::AlreadyRegistered`], leaving the state unchanged, by
/// the contract of [`Registration::register`].
pub proof fn lemma_only_first_register_succeeds(statuses: Seq<int>, i: int, j: int)
    requires
        0 <= i < j < statuses.len(),
        spec_register_succeeds(spec_registered_after(statuses.take(i)), statuses[i]),
    ensures
        !spec_register_succeeds(spec_registered_after(statuses.take(j)), statuses[j]),
        spec_registered_after(statuses.take(j)),
{
    assert(statuses.take(i + 1).drop_last() =~= statuses.take(i));
    assert(statuses.take(i + 1).last() == statuses[i]);
    assert(spec_registered_after(statuses.take(i + 1)));
    lemma_registration_is_stable(statuses, i + 1, j);
}

/// After the host has refused a registration the instance is still
/// unregistered, so a well-formed retry — here, on the same cleared
/// instance, equally on a fresh one — succeeds as soon as the host is
/// willing; the refused attempt retains no shared state.
pub proof fn lemma_register_succeeds_after_host_refusal(
    failed_status: int,
    retry_status: int,
)
    requires
        failed_status < 0,
        retry_status >= 0,
    ensures
        !spec_register_next(false, failed_status),
        spec_register_succeeds(spec_register_next(false, failed_status), retry_status),
{
}

} // verus!
