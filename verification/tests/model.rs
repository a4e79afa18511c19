use miscdev::device::MiscDev;
use miscdev::devices::{EchoBuffer, FixedReader};
use miscdev::error::Error;
use miscdev::foreign::ForeignHandle;
use miscdev::layout::{container_of, field_address};

#[test]
fn foreign_round_trip_returns_the_value() {
    let value: Vec<u8> = vec![3u8, 1, 4, 1, 5];
    let handle = ForeignHandle::into_foreign(value.clone());
    // A borrow taken while the host holds the handle observes the whole
    // value, never a partially constructed one.
    assert_eq!(handle.borrow(), &value);
    assert_eq!(handle.borrow(), &value);
    // Reconstructing consumes the handle and yields the value itself.
    let back = handle.from_foreign();
    assert_eq!(back, value);
}

#[test]
fn foreign_borrow_mut_views_the_owned_value() {
    let mut handle = ForeignHandle::into_foreign(vec![1u8, 2]);
    handle.borrow_mut().push(3);
    assert_eq!(handle.from_foreign(), vec![1u8, 2, 3]);
}

#[test]
fn container_recovery_is_exact() {
    // A field placed 8 bytes into an object at 4096: recovery returns the
    // object's own address, not merely a nearby one.
    let base: usize = 4096;
    let offset: usize = 8;
    let field = field_address(base, offset);
    assert_eq!(field, 4104);
    assert_eq!(container_of(field, offset), base);
    // A field at offset zero is the object itself.
    assert_eq!(container_of(field_address(base, 0), 0), base);
}

#[test]
fn error_statuses_are_negative_and_distinct() {
    let kinds = [
        Error::AlreadyRegistered,
        Error::RegistrationFailed,
        Error::OperationUnsupported,
        Error::BoundaryCopyFault,
        Error::AllocationFailure,
        Error::ContractError,
    ];
    for kind in kinds {
        assert!(kind.to_status() < 0);
    }
    for (i, a) in kinds.iter().enumerate() {
        for (j, b) in kinds.iter().enumerate() {
            if i != j {
                assert_ne!(a.to_status(), b.to_status());
            }
        }
    }
    // The exact host codes, following the host's errno numbering.
    assert_eq!(Error::AlreadyRegistered.to_status(), -16);
    assert_eq!(Error::RegistrationFailed.to_status(), -19);
    assert_eq!(Error::OperationUnsupported.to_status(), -22);
    assert_eq!(Error::BoundaryCopyFault.to_status(), -14);
    assert_eq!(Error::AllocationFailure.to_status(), -12);
    assert_eq!(Error::ContractError.to_status(), -5);
}

#[test]
fn fixed_reader_slices_by_position() {
    let mut content: Vec<u8> = b"abcdef".to_vec();
    assert_eq!(FixedReader::read(&mut content, 4, 0), Ok(b"abcd".to_vec()));
    assert_eq!(FixedReader::read(&mut content, 4, 4), Ok(b"ef".to_vec()));
    assert_eq!(FixedReader::read(&mut content, 4, 6), Ok(Vec::new()));
    assert_eq!(FixedReader::read(&mut content, 4, 7), Ok(Vec::new()));
    assert_eq!(FixedReader::read(&mut content, 0, 2), Ok(Vec::new()));
    assert_eq!(FixedReader::read(&mut content, 4, -1), Err(Error::ContractError));
    // The content itself never changes under reads.
    assert_eq!(content, b"abcdef".to_vec());
    // Writing is not supported by this device.
    assert_eq!(
        FixedReader::write(&mut content, &vec![0u8], 0),
        Err(Error::OperationUnsupported)
    );
    assert_eq!(FixedReader::release(content), Ok(()));
}

#[test]
fn fixed_reader_of_empty_content_returns_nothing() {
    let mut empty: Vec<u8> = Vec::new();
    assert_eq!(FixedReader::read(&mut empty, 8, 0), Ok(Vec::new()));
}

#[test]
fn echo_buffer_appends_and_drains_in_order() {
    let mut queue: Vec<u8> = Vec::new();
    assert_eq!(EchoBuffer::write(&mut queue, &vec![1u8, 2], 0), Ok(2));
    assert_eq!(EchoBuffer::write(&mut queue, &vec![3u8], 99), Ok(1));
    assert_eq!(queue, vec![1u8, 2, 3]);
    // Draining more than is buffered yields what is there.
    assert_eq!(EchoBuffer::read(&mut queue, 2, 0), Ok(vec![1u8, 2]));
    assert_eq!(EchoBuffer::read(&mut queue, 5, 0), Ok(vec![3u8]));
    assert_eq!(EchoBuffer::read(&mut queue, 5, 0), Ok(Vec::new()));
    assert!(queue.is_empty());
    // An empty write is taken in full, of zero bytes.
    assert_eq!(EchoBuffer::write(&mut queue, &Vec::new(), 0), Ok(0));
    assert_eq!(EchoBuffer::release(queue), Ok(()));
}
