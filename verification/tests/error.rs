use embedded_fans::error::{Error, ErrorKind, ErrorType};
use std::collections::HashSet;

#[derive(Debug, Clone, Copy, PartialEq, Eq)]
enum DriverError {
    BusFault(u8),
    TooFast { asked: u16, max: u16 },
    Unknown,
}

impl Error for DriverError {
    fn spec_kind(&self) -> ErrorKind {
        self.kind()
    }

    fn kind(&self) -> ErrorKind {
        match self {
            DriverError::BusFault(_) => ErrorKind::Peripheral,
            DriverError::TooFast { .. } => ErrorKind::InvalidSpeed,
            DriverError::Unknown => ErrorKind::Other,
        }
    }
}

struct Device;

impl ErrorType for Device {
    type Error = DriverError;
}

fn kind_through_handle<D: ErrorType>(_device: &D, error: D::Error) -> ErrorKind {
    error.kind()
}

#[test]
fn a_kind_is_its_own_kind() {
    assert_eq!(ErrorKind::Peripheral.kind(), ErrorKind::Peripheral);
    assert_eq!(ErrorKind::InvalidSpeed.kind(), ErrorKind::InvalidSpeed);
    assert_eq!(ErrorKind::Other.kind(), ErrorKind::Other);
}

#[test]
fn a_driver_error_reports_its_kind() {
    assert_eq!(DriverError::BusFault(3).kind(), ErrorKind::Peripheral);
    assert_eq!(DriverError::TooFast { asked: 4000, max: 3150 }.kind(), ErrorKind::InvalidSpeed);
    assert_eq!(DriverError::Unknown.kind(), ErrorKind::Other);
}

#[test]
fn classifying_twice_gives_the_same_kind() {
    let errors = [
        DriverError::BusFault(0),
        DriverError::BusFault(255),
        DriverError::TooFast { asked: 1, max: 0 },
        DriverError::Unknown,
    ];
    for error in errors {
        assert_eq!(error.kind(), error.kind());
        assert_eq!(error.kind().kind(), error.kind());
    }
}

#[test]
fn a_borrowed_device_fails_with_the_device_error() {
    let mut device = Device;
    assert_eq!(kind_through_handle(&device, DriverError::Unknown), ErrorKind::Other);
    let borrowed = &mut device;
    assert_eq!(kind_through_handle(&borrowed, DriverError::BusFault(9)), ErrorKind::Peripheral);
    let mut twice = borrowed;
    assert_eq!(
        kind_through_handle(&&mut twice, DriverError::TooFast { asked: 2, max: 1 }),
        ErrorKind::InvalidSpeed
    );
}

#[test]
fn each_kind_has_its_message() {
    assert_eq!(ErrorKind::Peripheral.message(), "An error occured on the underlying peripheral");
    assert_eq!(
        ErrorKind::InvalidSpeed.message(),
        "Fan is not capable of operating at the requested speed"
    );
    assert_eq!(
        ErrorKind::Other.message(),
        "A different error occurred. The original error may contain more information"
    );
}

#[test]
fn kinds_compare_copy_and_hash() {
    let kind = ErrorKind::InvalidSpeed;
    let copy = kind;
    assert_eq!(kind, copy);
    assert_ne!(ErrorKind::Peripheral, ErrorKind::Other);
    assert!(ErrorKind::Peripheral < ErrorKind::InvalidSpeed);
    assert!(ErrorKind::InvalidSpeed < ErrorKind::Other);
    let mut seen = HashSet::new();
    assert!(seen.insert(ErrorKind::Peripheral));
    assert!(seen.insert(ErrorKind::Other));
    assert!(!seen.insert(ErrorKind::Peripheral));
    assert_eq!(format!("{:?}", ErrorKind::Peripheral), "Peripheral");
}
