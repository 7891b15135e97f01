use usbcore::error::{check, from_libusb, Error};

#[test]
fn documented_codes_translate_and_come_back() {
    let codes = [-1, -2, -3, -4, -5, -6, -7, -8, -9, -10, -11, -12, -99];
    let kinds = [
        Error::Io,
        Error::InvalidParam,
        Error::Access,
        Error::NoDevice,
        Error::NotFound,
        Error::Busy,
        Error::Timeout,
        Error::Overflow,
        Error::Pipe,
        Error::Interrupted,
        Error::NoMem,
        Error::NotSupported,
        Error::Other,
    ];
    for (code, kind) in codes.iter().zip(kinds.iter()) {
        assert_eq!(from_libusb(*code), *kind);
        assert_eq!(kind.to_libusb(), *code);
        assert_eq!(from_libusb(kind.to_libusb()), *kind);
    }
}

#[test]
fn unknown_codes_are_other() {
    assert_eq!(from_libusb(-13), Error::Other);
    assert_eq!(from_libusb(-1000), Error::Other);
    assert_eq!(from_libusb(i32::MIN), Error::Other);
    assert_eq!(Error::InvalidState.to_libusb(), -99);
}

#[test]
fn check_splits_success_and_failure() {
    assert_eq!(check(0), Ok(0));
    assert_eq!(check(7), Ok(7));
    assert_eq!(check(-3), Err(Error::Access));
    assert_eq!(check(-42), Err(Error::Other));
}
