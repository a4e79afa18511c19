use miscdev::device::MiscDev;
use miscdev::devices::FixedReader;
use miscdev::error::Error;
use miscdev::host::{File, UserBuffer};
use miscdev::registration::Registration;

#[test]
fn register_only_first_succeeds() {
    let mut reg = Registration::<FixedReader>::default();
    assert!(!reg.is_registered());
    assert_eq!(reg.name(), "");
    assert_eq!(reg.minor(), 0);
    assert_eq!(reg.register(vec![1u8, 2, 3], 0), Ok(()));
    assert!(reg.is_registered());
    // The descriptor is populated: the device name and the sentinel that
    // asks the host for a dynamically assigned minor number.
    assert_eq!(reg.name(), "rchrdev");
    assert_eq!(reg.minor(), 255);
    // Every subsequent call fails with AlreadyRegistered and changes nothing.
    assert_eq!(reg.register(vec![9u8], 0), Err(Error::AlreadyRegistered));
    assert!(reg.is_registered());
    assert_eq!(reg.register(vec![9u8], -19), Err(Error::AlreadyRegistered));
    assert!(reg.is_registered());
}

#[test]
fn register_rolls_back_on_host_refusal() {
    let mut reg = Registration::<FixedReader>::default();
    assert_eq!(reg.register(vec![1u8], -19), Err(Error::RegistrationFailed));
    // The refused instance keeps no shared state, no registered flag, and
    // no populated descriptor...
    assert!(!reg.is_registered());
    assert_eq!(reg.name(), "");
    assert_eq!(reg.minor(), 0);
    // ...and a well-formed retry with the same name succeeds.
    let mut fresh = Registration::<FixedReader>::default();
    assert_eq!(fresh.register(vec![1u8], 0), Ok(()));
    assert!(fresh.is_registered());
}

#[test]
fn new_pinned_registered_reports_host_verdict() {
    let ok = Registration::<FixedReader>::new_pinned_registered(vec![7u8], 0);
    match ok {
        Ok(reg) => assert!(reg.is_registered()),
        Err(_) => panic!("a willing host must yield a registration"),
    }
    let refused = Registration::<FixedReader>::new_pinned_registered(vec![7u8], -12);
    match refused {
        Ok(_) => panic!("a refusing host must not yield a registration"),
        Err(e) => assert_eq!(e, Error::RegistrationFailed),
    }
}

#[test]
fn register_twice_device_still_serves_reads() {
    // Second register call fails, and the device registered by the first
    // call still answers a read.
    let content: Vec<u8> = b"Hello CLT\n".to_vec();
    let mut reg = Registration::<FixedReader>::new_pinned_registered(content, 0)
        .expect("host accepted");
    assert_eq!(reg.register(vec![0u8], 0), Err(Error::AlreadyRegistered));
    assert!(reg.is_registered());

    let mut file: File<Vec<u8>> = File::new();
    assert_eq!(reg.open_callback(&mut file), 0);
    let mut user = UserBuffer { data: vec![0u8; 5], fault: false };
    let status = Registration::<FixedReader>::read_callback(&mut file, &mut user, 5);
    assert_eq!(status, 5);
    assert_eq!(&user.data, b"Hello");
    assert_eq!(Registration::<FixedReader>::release_callback(&mut file), 0);
}

#[test]
fn deregister_withdraws_and_is_idempotent() {
    let mut reg = Registration::<FixedReader>::new_pinned_registered(vec![1u8], 0)
        .expect("host accepted");
    assert!(reg.is_registered());
    reg.deregister();
    // The host delivers callbacks only while the instance is registered,
    // so a simulated host checks the flag and delivers nothing now.
    assert!(!reg.is_registered());
    // Dropping after deregistration must not free the shared state twice;
    // a second deregistration acts as the destructor would and is a no-op.
    reg.deregister();
    assert!(!reg.is_registered());
    drop(reg);
}

#[test]
fn unregistered_instance_has_no_footprint() {
    let reg = Registration::<FixedReader>::default();
    assert!(!reg.is_registered());
    drop(reg);
}
