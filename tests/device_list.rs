use usbcore::device_list::{Device, DeviceList};
use usbcore::error::Error;

fn sample() -> DeviceList {
    DeviceList::from_libusb(vec![
        Device::from_libusb(1, 4),
        Device::from_libusb(1, 7),
        Device::from_libusb(2, 4),
    ])
}

#[test]
fn list_yields_each_enumerated_device_once() {
    let list = sample();
    assert_eq!(list.len(), 3);
    let mut it = list.iter();
    assert_eq!(it.size_hint(), (3, Some(3)));
    let mut seen = Vec::new();
    while let Some(d) = it.next() {
        seen.push((d.bus_number(), d.address()));
    }
    assert_eq!(seen, vec![(1, 4), (1, 7), (2, 4)]);
    assert_eq!(it.size_hint(), (0, Some(0)));
    assert_eq!(it.next(), None);
    assert_eq!(list.to_vec().len(), 3);
}

#[test]
fn empty_list_yields_nothing() {
    let list = DeviceList::from_libusb(Vec::new());
    assert_eq!(list.len(), 0);
    assert_eq!(list.iter().next(), None);
}

#[test]
fn references_are_counted_and_never_released_twice() {
    let mut list = sample();
    let d = list.acquire(1).unwrap();
    assert_eq!((d.bus_number(), d.address()), (1, 7));
    assert!(list.acquire(1).is_ok());
    assert_eq!(list.references(1), 2);
    assert_eq!(list.release(1), Ok(()));
    assert_eq!(list.release(1), Ok(()));
    assert_eq!(list.release(1), Err(Error::InvalidState));
    assert_eq!(list.references(1), 0);
    assert_eq!(list.acquire(3), Err(Error::InvalidParam));
    assert_eq!(list.release(3), Err(Error::InvalidParam));
}
