use vstd::prelude::*;

use crate::event::{LIBUSB_HOTPLUG_EVENT_DEVICE_ARRIVED, LIBUSB_HOTPLUG_EVENT_DEVICE_LEFT};

verus! {

/// Native wildcard for a vendor, product or class that is not filtered on.
pub const LIBUSB_HOTPLUG_MATCH_ANY: i32 = -1;
/// Native registration flag: report every attached matching device at once.
pub const LIBUSB_HOTPLUG_ENUMERATE: i32 = 1;
/// Native registration flags: none.
pub const LIBUSB_HOTPLUG_NO_FLAGS: i32 = 0;
/// Native event mask for both arrivals and departures.
pub const LIBUSB_HOTPLUG_EVENT_ANY: i32 = 3;

/// Which hot-plug events a registration is interested in. Unset fields
/// match anything.
#[derive(Debug, Clone, Copy, PartialEq, Eq, Structural)]
pub struct HotplugFilter {
    vendor: Option<i32>,
    product: Option<i32>,
    class: Option<i32>,
    events: Option<i32>,
    enumerate: bool,
}

/// A field of a filter as the native layer takes it.
pub open spec fn or_any(field: Option<i32>) -> i32 {
    match field {
        Some(v) => v,
        None => LIBUSB_HOTPLUG_MATCH_ANY,
    }
}

impl HotplugFilter {
    pub closed spec fn spec_vendor(&self) -> Option<i32> {
        self.vendor
    }

    pub closed spec fn spec_product(&self) -> Option<i32> {
        self.product
    }

    pub closed spec fn spec_class(&self) -> Option<i32> {
        self.class
    }

    pub closed spec fn spec_events(&self) -> Option<i32> {
        self.events
    }

    pub closed spec fn spec_enumerate(&self) -> bool {
        self.enumerate
    }

    /// A filter that matches every device and every event, with no
    /// enumeration at registration.
    pub fn new() -> (r: Self)
        ensures
            r.spec_vendor() is None,
            r.spec_product() is None,
            r.spec_class() is None,
            r.spec_events() is None,
            !r.spec_enumerate(),
    {
        HotplugFilter { vendor: None, product: None, class: None, events: None, enumerate: false }
    }

    /// The vendor id to match, or the native wildcard.
    pub fn get_vendor(&self) -> (r: i32)
        ensures
            r == or_any(self.spec_vendor()),
    {
        match self.vendor {
            Some(v) => v,
            None => LIBUSB_HOTPLUG_MATCH_ANY,
        }
    }

    /// The product id to match, or the native wildcard.
    pub fn get_product(&self) -> (r: i32)
        ensures
            r == or_any(self.spec_product()),
    {
        match self.product {
            Some(v) => v,
            None => LIBUSB_HOTPLUG_MATCH_ANY,
        }
    }

    /// The device class to match, or the native wildcard.
    pub fn get_class(&self) -> (r: i32)
        ensures
            r == or_any(self.spec_class()),
    {
        match self.class {
            Some(v) => v,
            None => LIBUSB_HOTPLUG_MATCH_ANY,
        }
    }

    /// The native event mask: both events unless one was chosen.
    pub fn get_events(&self) -> (r: i32)
        ensures
            self.spec_events() matches Some(e) ==> r == e,
            self.spec_events() is None ==> r == LIBUSB_HOTPLUG_EVENT_ANY,
    {
        match self.events {
            Some(e) => e,
            None => LIBUSB_HOTPLUG_EVENT_ANY,
        }
    }

    /// The native registration flags.
    pub fn get_flags(&self) -> (r: i32)
        ensures
            r == if self.spec_enumerate() {
                LIBUSB_HOTPLUG_ENUMERATE
            } else {
                LIBUSB_HOTPLUG_NO_FLAGS
            },
    {
        if self.enumerate {
            LIBUSB_HOTPLUG_ENUMERATE
        } else {
            LIBUSB_HOTPLUG_NO_FLAGS
        }
    }

    /// Matches only devices of this vendor.
    pub fn vendor(self, vendor: i32) -> (r: Self)
        ensures
            r.spec_vendor() == Some(vendor),
            r.spec_product() == self.spec_product(),
            r.spec_class() == self.spec_class(),
            r.spec_events() == self.spec_events(),
            r.spec_enumerate() == self.spec_enumerate(),
    {
        HotplugFilter { vendor: Some(vendor), ..self }
    }

    /// Matches only devices with this product id.
    pub fn product(self, product: i32) -> (r: Self)
        ensures
            r.spec_vendor() == self.spec_vendor(),
            r.spec_product() == Some(product),
            r.spec_class() == self.spec_class(),
            r.spec_events() == self.spec_events(),
            r.spec_enumerate() == self.spec_enumerate(),
    {
        HotplugFilter { product: Some(product), ..self }
    }

    /// Matches only devices of this class.
    pub fn class(self, class: i32) -> (r: Self)
        ensures
            r.spec_vendor() == self.spec_vendor(),
            r.spec_product() == self.spec_product(),
            r.spec_class() == Some(class),
            r.spec_events() == self.spec_events(),
            r.spec_enumerate() == self.spec_enumerate(),
    {
        HotplugFilter { class: Some(class), ..self }
    }

    /// Reports arrivals only.
    pub fn arrived_only(self) -> (r: Self)
        ensures
            r.spec_vendor() == self.spec_vendor(),
            r.spec_product() == self.spec_product(),
            r.spec_class() == self.spec_class(),
            r.spec_events() == Some(LIBUSB_HOTPLUG_EVENT_DEVICE_ARRIVED),
            r.spec_enumerate() == self.spec_enumerate(),
    {
        HotplugFilter { events: Some(LIBUSB_HOTPLUG_EVENT_DEVICE_ARRIVED), ..self }
    }

    /// Reports departures only.
    pub fn left_only(self) -> (r: Self)
        ensures
            r.spec_vendor() == self.spec_vendor(),
            r.spec_product() == self.spec_product(),
            r.spec_class() == self.spec_class(),
            r.spec_events() == Some(LIBUSB_HOTPLUG_EVENT_DEVICE_LEFT),
            r.spec_enumerate() == self.spec_enumerate(),
    {
        HotplugFilter { events: Some(LIBUSB_HOTPLUG_EVENT_DEVICE_LEFT), ..self }
    }

    /// Also reports every attached matching device as arrived, during the
    /// registration call itself.
    pub fn enumerate(self) -> (r: Self)
        ensures
            r.spec_vendor() == self.spec_vendor(),
            r.spec_product() == self.spec_product(),
            r.spec_class() == self.spec_class(),
            r.spec_events() == self.spec_events(),
            r.spec_enumerate(),
    {
        HotplugFilter { enumerate: true, ..self }
    }
}

} // verus!
