use vstd::prelude::*;

use crate::error::Error;

verus! {

/// What enumeration observed of one device: the bus it is connected to and
/// its address on that bus.
#[derive(Debug, Clone, Copy, PartialEq, Eq, Structural)]
pub struct Device {
    bus_number: u8,
    address: u8,
}

impl Device {
    pub closed spec fn spec_bus_number(&self) -> u8 {
        self.bus_number
    }

    pub closed spec fn spec_address(&self) -> u8 {
        self.address
    }

    /// A device seen on bus `bus_number` at `address`.
    pub fn from_libusb(bus_number: u8, address: u8) -> (r: Device)
        ensures
            r.spec_bus_number() == bus_number,
            r.spec_address() == address,
    {
        Device { bus_number, address }
    }

    /// The number of the bus that the device is connected to.
    pub fn bus_number(&self) -> (r: u8)
        ensures
            r == self.spec_bus_number(),
    {
        self.bus_number
    }

    /// The device's address on its bus.
    pub fn address(&self) -> (r: u8)
        ensures
            r == self.spec_address(),
    {
        self.address
    }
}

/// The reference count that the native layer keeps for the device at
/// `index` while the list is alive: the list's own reference plus one for
/// each live device reference taken from it.
pub open spec fn native_count(held: Seq<u32>, index: int) -> int {
    1 + held[index]
}

/// A snapshot of the enumerated devices, in native enumeration order, with
/// the number of live device references taken from each entry.
pub struct DeviceList {
    devices: Vec<Device>,
    held: Vec<u32>,
}

impl DeviceList {
    /// The devices, in enumeration order.
    pub closed spec fn spec_devices(&self) -> Seq<Device> {
        self.devices@
    }

    /// For each device, the number of live references taken from the list.
    pub closed spec fn spec_held(&self) -> Seq<u32> {
        self.held@
    }

    /// One count for each device.
    pub closed spec fn wf(&self) -> bool {
        self.held@.len() == self.devices@.len()
    }

    /// The list of the `devices` that one enumeration returned, with no
    /// reference taken yet.
    pub fn from_libusb(devices: Vec<Device>) -> (r: DeviceList)
        ensures
            r.wf(),
            r.spec_devices() == devices@,
            r.spec_held() == Seq::new(devices@.len(), |i: int| 0u32),
    {
        let mut held: Vec<u32> = Vec::new();
        let mut k: usize = 0;
        while k < devices.len()
            invariant
                k <= devices@.len(),
                held@ == Seq::new(k as nat, |i: int| 0u32),
            decreases devices@.len() - k,
        {
            held.push(0u32);
            k = k + 1;
            assert(held@ =~= Seq::new(k as nat, |i: int| 0u32));
        }
        DeviceList { devices, held }
    }

    /// The number of devices in the list.
    pub fn len(&self) -> (r: usize)
        ensures
            r == self.spec_devices().len(),
    {
        self.devices.len()
    }

    /// An iterator over the devices, in enumeration order.
    pub fn iter(&self) -> (r: Devices)
        ensures
            r.wf(),
            r.remaining() == self.spec_devices(),
    {
        let mut devices: Vec<Device> = Vec::new();
        let mut k: usize = 0;
        while k < self.devices.len()
            invariant
                k <= self.devices@.len(),
                devices@ == self.devices@.subrange(0, k as int),
            decreases self.devices@.len() - k,
        {
            devices.push(self.devices[k]);
            k = k + 1;
        }
        assert(devices@ =~= self.devices@);
        let r = Devices { devices, index: 0 };
        assert(r.remaining() =~= self.spec_devices());
        r
    }

    /// The devices that iterating the list yields, collected: exactly
    /// `len()` of them, the enumerated devices in their order.
    pub fn to_vec(&self) -> (r: Vec<Device>)
        ensures
            r@.len() == self.spec_devices().len(),
            r@ == self.spec_devices(),
    {
        let mut it = self.iter();
        let mut out: Vec<Device> = Vec::new();
        loop
            invariant
                it.wf(),
                out@ + it.remaining() == self.spec_devices(),
            ensures
                out@ == self.spec_devices(),
            decreases it.remaining().len(),
        {
            let ghost before = it.remaining();
            match it.next() {
                None => {
                    assert(before.len() == 0);
                    assert(out@ + before =~= out@);
                    break;
                },
                Some(d) => {
                    out.push(d);
                    assert(out@ + it.remaining() =~= self.spec_devices()) by {
                        assert(before =~= seq![d] + before.drop_first());
                    }
                },
            }
        }
        out
    }

    /// Takes a reference on the device at `index`, which the caller then
    /// holds on the native side too. `InvalidParam` past the end, and
    /// `Overflow` if the count is at its limit; nothing changes on error.
    pub fn acquire(&mut self, index: usize) -> (r: Result<Device, Error>)
        requires
            old(self).wf(),
        ensures
            final(self).wf(),
            final(self).spec_devices() == old(self).spec_devices(),
            index >= old(self).spec_devices().len() ==> r == Err::<Device, Error>(Error::InvalidParam)
                && final(self).spec_held() == old(self).spec_held(),
            index < old(self).spec_devices().len() && old(self).spec_held()[index as int] == u32::MAX
                ==> r == Err::<Device, Error>(Error::Overflow) && final(self).spec_held() == old(
                self,
            ).spec_held(),
            index < old(self).spec_devices().len() && old(self).spec_held()[index as int] < u32::MAX
                ==> r == Ok::<Device, Error>(old(self).spec_devices()[index as int])
                && final(self).spec_held() == old(self).spec_held().update(
                index as int,
                (old(self).spec_held()[index as int] + 1) as u32,
            ),
    {
        if index >= self.devices.len() {
            return Err(Error::InvalidParam);
        }
        let n = self.held[index];
        if n == u32::MAX {
            return Err(Error::Overflow);
        }
        self.held.set(index, n + 1);
        Ok(self.devices[index])
    }

    /// Gives back a reference taken on the device at `index`; the caller
    /// drops its native reference only on success. `InvalidParam` past the
    /// end, and `InvalidState` if no reference is held there (a second
    /// release of the same reference), so that the native count never falls
    /// below the list's own reference.
    pub fn release(&mut self, index: usize) -> (r: Result<(), Error>)
        requires
            old(self).wf(),
        ensures
            final(self).wf(),
            final(self).spec_devices() == old(self).spec_devices(),
            index >= old(self).spec_devices().len() ==> r == Err::<(), Error>(Error::InvalidParam)
                && final(self).spec_held() == old(self).spec_held(),
            index < old(self).spec_devices().len() && old(self).spec_held()[index as int] == 0
                ==> r == Err::<(), Error>(Error::InvalidState) && final(self).spec_held() == old(
                self,
            ).spec_held(),
            index < old(self).spec_devices().len() && old(self).spec_held()[index as int] > 0
                ==> r == Ok::<(), Error>(()) && final(self).spec_held() == old(
                self,
            ).spec_held().update(index as int, (old(self).spec_held()[index as int] - 1) as u32),
    {
        if index >= self.devices.len() {
            return Err(Error::InvalidParam);
        }
        let n = self.held[index];
        if n == 0 {
            return Err(Error::InvalidState);
        }
        self.held.set(index, n - 1);
        Ok(())
    }

    /// The number of live references taken on the device at `index`.
    pub fn references(&self, index: usize) -> (r: u32)
        requires
            self.wf(),
            index < self.spec_devices().len(),
        ensures
            r == self.spec_held()[index as int],
    {
        self.held[index]
    }
}

/// Iterator over the devices of a `DeviceList`.
pub struct Devices {
    devices: Vec<Device>,
    index: usize,
}

impl Devices {
    /// The devices not yet yielded, in order.
    pub closed spec fn remaining(&self) -> Seq<Device> {
        self.devices@.subrange(self.index as int, self.devices@.len() as int)
    }

    /// The position has not passed the end.
    pub closed spec fn wf(&self) -> bool {
        self.index <= self.devices@.len()
    }

    /// Yields the next device, or `None` at the end.
    pub fn next(&mut self) -> (r: Option<Device>)
        requires
            old(self).wf(),
        ensures
            final(self).wf(),
            old(self).remaining().len() == 0 ==> r is None && final(self).remaining() == old(
                self,
            ).remaining(),
            old(self).remaining().len() > 0 ==> r == Some(old(self).remaining()[0])
                && final(self).remaining() == old(self).remaining().drop_first(),
    {
        if self.index < self.devices.len() {
            let device = self.devices[self.index];
            self.index = self.index + 1;
            assert(self.remaining() =~= old(self).remaining().drop_first());
            Some(device)
        } else {
            None
        }
    }

    /// The exact number of devices left, as lower and upper bound.
    pub fn size_hint(&self) -> (r: (usize, Option<usize>))
        requires
            self.wf(),
        ensures
            r == (self.remaining().len() as usize, Some(self.remaining().len() as usize)),
    {
        let remaining = self.devices.len() - self.index;
        (remaining, Some(remaining))
    }
}

/// While a device reference taken from the list is alive, releasing any
/// other reference leaves the native count of that device at one or more,
/// and at least as large as the references that remain: a release never
/// takes the count below what keeps the device reachable.
pub proof fn lemma_release_keeps_device(held: Seq<u32>, index: int)
    requires
        0 <= index < held.len(),
        held[index] > 0,
    ensures
        native_count(held.update(index, (held[index] - 1) as u32), index) >= 1,
        native_count(held.update(index, (held[index] - 1) as u32), index) > (held[index] - 1),
        native_count(held, index) >= 2,
{
}

} // verus!
