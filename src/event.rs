use vstd::prelude::*;

verus! {

/// Native hot-plug event code: a device has arrived.
pub const LIBUSB_HOTPLUG_EVENT_DEVICE_ARRIVED: i32 = 1;
/// Native hot-plug event code: a device has left.
pub const LIBUSB_HOTPLUG_EVENT_DEVICE_LEFT: i32 = 2;

/// A device attached to, or removed from, the bus.
#[derive(Debug, Clone, Copy, PartialEq, Eq, Structural)]
pub enum HotPlugEvent {
    Arrived,
    Left,
}

/// The event that a native code stands for, if any.
pub open spec fn event_of_code(value: int) -> Option<HotPlugEvent> {
    if value == LIBUSB_HOTPLUG_EVENT_DEVICE_ARRIVED {
        Some(HotPlugEvent::Arrived)
    } else if value == LIBUSB_HOTPLUG_EVENT_DEVICE_LEFT {
        Some(HotPlugEvent::Left)
    } else {
        None
    }
}

impl HotPlugEvent {
    /// Decodes a native event code; any other code is no event.
    pub fn from_i32(value: i32) -> (r: Option<HotPlugEvent>)
        ensures
            r == event_of_code(value as int),
    {
        if value == LIBUSB_HOTPLUG_EVENT_DEVICE_ARRIVED {
            Some(HotPlugEvent::Arrived)
        } else if value == LIBUSB_HOTPLUG_EVENT_DEVICE_LEFT {
            Some(HotPlugEvent::Left)
        } else {
            None
        }
    }
}

} // verus!
