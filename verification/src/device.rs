//! Device Factory: plans logical-device creation for a single
//! graphics-capable queue and assembles the owned `Device` value from the
//! handles the native calls return.
//!
//! The factory accepts the physical device and the queue family index as
//! already-resolved inputs; that the family supports the required
//! capability is the caller's responsibility. Exactly one queue is
//! created per device, at full priority, and its handle is retrieved at
//! queue index 0 of the requested family.

use vstd::prelude::*;

use crate::instance::ApiError;
use crate::instance::Instance;

verus! {

/// An owned logical device: a non-owning physical-device reference, the
/// owning logical-device handle, the queue handle (owned by the logical
/// device), and the queue family index kept for submission routing.
#[derive(Clone, Copy, Debug, PartialEq, Eq)]
pub struct Device {
    pub physical_device: u64,
    pub device: u64,
    pub queue: u64,
    pub family_index: u32,
}

/// Everything the native device-creation call is given: the physical
/// device, one queue-creation descriptor (the family index with a single
/// queue), and the extension tokens. No feature descriptor is threaded
/// through — features default to the driver's baseline.
#[derive(Debug, PartialEq, Eq)]
pub struct DevicePlan {
    pub physical_device: u64,
    pub family_index: u32,
    /// Number of queues requested from the family: always one.
    pub queue_count: u32,
    pub extensions: Vec<String>,
}

/// What follows the native device-creation call: on success, the queue
/// handle must be retrieved; on failure, the native error is reported
/// unchanged and nothing is retained.
#[derive(Clone, Copy, Debug, PartialEq, Eq)]
pub enum DeviceStep {
    /// Retrieve the queue at `queue_index` (always 0) of `family_index`
    /// from the created `device`.
    QueryQueue { device: u64, family_index: u32, queue_index: u32 },
    Failed(ApiError),
}

/// The plan a device request gives rise to: the inputs carried over
/// unchanged, with exactly one queue requested.
pub open spec fn device_plan_of(physical_device: u64, family_index: u32, extensions: Vec<String>)
    -> DevicePlan {
    DevicePlan { physical_device, family_index, queue_count: 1u32, extensions }
}

/// What the device-creation outcome means: success moves on to the queue
/// query at index 0 of the requested family; failure aborts with the
/// native status unchanged.
pub open spec fn device_step_of(result: Result<u64, i32>, family_index: u32) -> DeviceStep {
    match result {
        Ok(h) => DeviceStep::QueryQueue { device: h, family_index, queue_index: 0u32 },
        Err(e) => DeviceStep::Failed(ApiError { code: e }),
    }
}

impl Instance {
    /// Begin device creation: build the creation plan for the given
    /// physical device, queue family and extension tokens. The caller
    /// performs the native call and continues with
    /// [`Device::after_creation`].
    pub fn create_device(&self, physical_device: u64, family_index: u32, extensions: Vec<String>)
        -> (p: DevicePlan)
        ensures
            p == device_plan_of(physical_device, family_index, extensions),
    {
        DevicePlan { physical_device, family_index, queue_count: 1, extensions }
    }
}

impl Device {
    /// Well-formed: the owning device handle and the queue handle are
    /// non-null.
    pub open spec fn wf(self) -> bool {
        self.device != 0 && self.queue != 0
    }

    /// Continue device creation with the native call's outcome. The
    /// native API returns a non-null handle on success, which the caller
    /// attests.
    pub fn after_creation(result: Result<u64, i32>, family_index: u32) -> (s: DeviceStep)
        requires
            result matches Ok(h) ==> h != 0,
        ensures
            s == device_step_of(result, family_index),
            s matches DeviceStep::QueryQueue { device, .. } ==> device != 0,
    {
        match result {
            Ok(h) => DeviceStep::QueryQueue { device: h, family_index, queue_index: 0 },
            Err(e) => DeviceStep::Failed(ApiError { code: e }),
        }
    }

    /// Assemble the device value once the queue handle is retrieved: the
    /// stored queue handle is exactly the retrieved (non-null) one and
    /// the stored family index equals the requested index.
    pub fn new(physical_device: u64, device: u64, queue: u64, family_index: u32) -> (d: Device)
        requires
            device != 0,
            queue != 0,
        ensures
            d == (Device { physical_device, device, queue, family_index }),
            d.wf(),
    {
        Device { physical_device, device, queue, family_index }
    }
}

} // verus!
