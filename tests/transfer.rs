use usbcore::error::Error;
use usbcore::transfer::{
    Transfer, TransferState, TransferStatus, LIBUSB_TRANSFER_CANCELLED,
};

#[test]
fn setup_packet_for_device_descriptor_request() {
    let packet = Transfer::create_setup_packet(0x80, 0x06, 0x0100, 0x0000, 18).unwrap();
    assert_eq!(packet, vec![0x80, 0x06, 0x00, 0x01, 0x00, 0x00, 0x12, 0x00]);
}

#[test]
fn setup_packet_is_little_endian() {
    let packet = Transfer::create_setup_packet(0x21, 0x09, 0xABCD, 0x1234, 0xFFFF).unwrap();
    assert_eq!(packet, vec![0x21, 0x09, 0xCD, 0xAB, 0x34, 0x12, 0xFF, 0xFF]);
}

#[test]
fn setup_packet_is_prepended_to_payload() {
    let data = [1u8, 2, 3];
    let buffer = Transfer::append_setup_packet(&data, 0x40, 0x01, 0x0002, 0x0003).unwrap();
    assert_eq!(buffer, vec![0x40, 0x01, 0x02, 0x00, 0x03, 0x00, 0x03, 0x00, 1, 2, 3]);
}

#[test]
fn payload_too_long_for_header_overflows() {
    let data = vec![0u8; 0x10000];
    assert_eq!(
        Transfer::append_setup_packet(&data, 0, 0, 0, 0),
        Err(Error::Overflow)
    );
}

#[test]
fn new_transfer_is_idle_and_rejects_negative_packets() {
    let t = Transfer::new(4).unwrap();
    assert_eq!(t.state(), TransferState::Idle);
    assert_eq!(t.descriptor().iso_packets, 4);
    assert!(matches!(Transfer::new(-1), Err(Error::InvalidParam)));
}

#[test]
fn cancelled_transfer_completes_once() {
    let mut t = Transfer::new(0).unwrap();
    assert_eq!(t.submit_transfer(64, 0), Ok(()));
    assert_eq!(t.state(), TransferState::Submitted);
    assert_eq!(t.cancel_transfer(0), Ok(()));
    assert_eq!(t.state(), TransferState::Submitted);
    assert_eq!(
        t.complete(LIBUSB_TRANSFER_CANCELLED, 0),
        Some((TransferStatus::Cancelled, 0))
    );
    assert_eq!(t.state(), TransferState::Finished(TransferStatus::Cancelled));
    assert_eq!(t.complete(LIBUSB_TRANSFER_CANCELLED, 0), None);
    assert_eq!(t.complete(0, 12), None);
}

#[test]
fn endpoint_is_frozen_while_submitted() {
    let mut t = Transfer::new(0).unwrap();
    assert_eq!(t.set_endpoint(0x81), Ok(()));
    assert_eq!(t.submit_transfer(8, 0), Ok(()));
    assert_eq!(t.set_endpoint(0x02), Err(Error::InvalidState));
    assert_eq!(t.endpoint(), 0x81);
    assert_eq!(t.set_timeout(5), Err(Error::InvalidState));
    assert_eq!(t.set_flags(1), Err(Error::InvalidState));
    assert_eq!(t.set_transfer_type(2), Err(Error::InvalidState));
    assert_eq!(t.set_status(1), Err(Error::InvalidState));
    assert_eq!(t.complete(0, 8), Some((TransferStatus::Completed, 8)));
    assert_eq!(t.set_endpoint(0x02), Ok(()));
    assert_eq!(t.endpoint(), 0x02);
}

#[test]
fn failed_submission_leaves_transfer_idle() {
    let mut t = Transfer::new(0).unwrap();
    assert_eq!(t.submit_transfer(8, -4), Err(Error::NoDevice));
    assert_eq!(t.state(), TransferState::Idle);
    assert_eq!(t.descriptor().length, 8);
}

#[test]
fn double_submission_is_refused() {
    let mut t = Transfer::new(0).unwrap();
    assert_eq!(t.submit_transfer(8, 0), Ok(()));
    assert_eq!(t.submit_transfer(8, 0), Err(Error::InvalidState));
    assert!(t.is_in_flight());
    assert!(!t.can_submit(8));
}

#[test]
fn cancel_without_submission_is_not_found() {
    let mut t = Transfer::new(0).unwrap();
    assert_eq!(t.cancel_transfer(0), Err(Error::NotFound));
    assert_eq!(t.submit_transfer(8, 0), Ok(()));
    assert_eq!(t.cancel_transfer(-5), Err(Error::NotFound));
    assert_eq!(t.cancel_transfer(-1), Err(Error::Io));
}

#[test]
fn completion_codes_translate() {
    let expected = [
        (0, TransferStatus::Completed),
        (1, TransferStatus::Error),
        (2, TransferStatus::Timeout),
        (3, TransferStatus::Cancelled),
        (4, TransferStatus::Stall),
        (5, TransferStatus::NoDevice),
        (6, TransferStatus::Overflow),
        (7, TransferStatus::Unknown),
        (-1, TransferStatus::Unknown),
    ];
    for (code, status) in expected.iter() {
        assert_eq!(TransferStatus::from_libusb(*code), *status);
    }
}

#[test]
fn statuses_map_to_results() {
    assert_eq!(TransferStatus::Completed.to_libusb_result(), Ok(()));
    assert_eq!(TransferStatus::Timeout.to_libusb_result(), Err(Error::Timeout));
    assert_eq!(TransferStatus::Stall.to_libusb_result(), Err(Error::Pipe));
    assert_eq!(TransferStatus::NoDevice.to_libusb_result(), Err(Error::NoDevice));
    assert_eq!(TransferStatus::Overflow.to_libusb_result(), Err(Error::Overflow));
    assert_eq!(TransferStatus::Error.to_libusb_result(), Err(Error::Io));
    assert_eq!(TransferStatus::Cancelled.to_libusb_result(), Err(Error::Io));
    assert_eq!(TransferStatus::Unknown.to_libusb_result(), Err(Error::Other));
}

#[test]
fn transfer_can_be_reused_after_completion() {
    let mut t = Transfer::new(0).unwrap();
    assert_eq!(t.submit_transfer(8, 0), Ok(()));
    assert_eq!(t.complete(2, 0), Some((TransferStatus::Timeout, 0)));
    assert_eq!(t.submit_transfer(16, 0), Ok(()));
    assert_eq!(t.complete(0, 16), Some((TransferStatus::Completed, 16)));
    assert_eq!(t.descriptor().actual_length, 16);
}
