//! Accelerator devices, identified by a validated index.
use vstd::prelude::*;

verus! {

/// One accelerator unit. The index was checked against the device count
/// when the value was made, and is not checked again.
#[derive(Debug, Clone, Copy, PartialEq, Eq, Structural)]
pub struct Device(i32);

/// Why a device index was refused.
#[derive(Debug, Clone, Copy, PartialEq, Eq, Structural)]
pub enum DeviceError {
    /// The index lies outside `0..count`.
    InvalidIndex { index: i32, count: i32 },
}

/// Whether `index` names one of `count` devices.
pub open spec fn index_in_range(index: int, count: int) -> bool {
    0 <= index < count
}

impl View for Device {
    type V = int;

    closed spec fn view(&self) -> int {
        self.0 as int
    }
}

impl Device {
    /// A device index is never negative.
    pub open spec fn wf(self) -> bool {
        self@ >= 0
    }

    /// The device with the given index, out of `count` devices.
    pub fn new(device: i32, count: i32) -> (d: Device)
        requires
            index_in_range(device as int, count as int),
        ensures
            d@ == device,
            d.wf(),
    {
        Device(device)
    }

    /// The device with the given index if it names one of `count` devices,
    /// else the error that says so.
    pub fn validate(index: i32, count: i32) -> (r: Result<Device, DeviceError>)
        ensures
            r is Ok <==> index_in_range(index as int, count as int),
            r matches Ok(d) ==> d@ == index && d.wf(),
            r matches Err(e) ==> e == (DeviceError::InvalidIndex { index, count }),
    {
        if 0 <= index && index < count {
            Ok(Device::new(index, count))
        } else {
            Err(DeviceError::InvalidIndex { index, count })
        }
    }

    /// Every device out of `count`, in the order of their indices.
    pub fn all(count: i32) -> (r: Vec<Device>)
        ensures
            count >= 0 ==> r@.len() == count,
            count < 0 ==> r@.len() == 0,
            forall|i: int| 0 <= i < r@.len() ==> #[trigger] r@[i]@ == i && r@[i].wf(),
    {
        let mut r: Vec<Device> = Vec::new();
        let mut i: i32 = 0;
        while i < count
            invariant
                0 <= i,
                count >= 0 ==> i <= count,
                count < 0 ==> i == 0,
                r@.len() == i,
                forall|j: int| 0 <= j < r@.len() ==> #[trigger] r@[j]@ == j && r@[j].wf(),
            decreases count - i,
        {
            r.push(Device::new(i, count));
            i = i + 1;
        }
        r
    }

    /// The device's index.
    pub fn inner(self) -> (r: i32)
        ensures
            r == self@,
    {
        self.0
    }
}

} // verus!
