//! What is known of the device and of its frames, waiting for the bridge.
//!
//! Each slot keeps only the latest: what it held before is overwritten, and
//! what is taken out is sent once.

use vstd::prelude::*;

verus! {

/// Who made the device, its driver, and its operating system.
#[derive(Debug)]
pub struct DeviceInfoRecord {
    pub gpu_name: String,
    pub driver_version: u32,
    pub vendor_id: u32,
    pub device_id: u32,
    pub api_version: u32,
    pub android_model: String,
    pub android_manufacturer: String,
    pub android_release: String,
    pub android_sdk_int: u32,
    pub android_fingerprint: String,
}

/// How long a frame took on the device. `gpu_time_ms` is the bit pattern of
/// a single-precision number of milliseconds.
#[derive(Clone, Copy, PartialEq, Eq, Structural, Debug)]
pub struct PerfSampleRecord {
    pub frame_id: u32,
    pub gpu_time_ms: u32,
}

/// Room for one of each.
#[derive(Debug)]
pub struct PerfSlots {
    pub device_info: Option<DeviceInfoRecord>,
    pub perf_sample: Option<PerfSampleRecord>,
}

impl PerfSlots {
    /// Slots with nothing in them.
    pub fn new() -> (slots: PerfSlots)
        ensures
            slots.device_info is None,
            slots.perf_sample is None,
    {
        PerfSlots { device_info: None, perf_sample: None }
    }
}

/// Leaves a description of the device.
pub fn set_device_info(slots: &mut PerfSlots, info: DeviceInfoRecord)
    ensures
        *final(slots) == (PerfSlots { device_info: Some(info), ..*old(slots) }),
{
    slots.device_info = Some(info);
}

/// Takes the description of the device, if there is one.
pub fn take_device_info(slots: &mut PerfSlots) -> (info: Option<DeviceInfoRecord>)
    ensures
        info == old(slots).device_info,
        *final(slots) == (PerfSlots { device_info: None, ..*old(slots) }),
{
    slots.device_info.take()
}

/// Leaves the time of a frame.
pub fn set_perf_sample(slots: &mut PerfSlots, sample: PerfSampleRecord)
    ensures
        *final(slots) == (PerfSlots { perf_sample: Some(sample), ..*old(slots) }),
{
    slots.perf_sample = Some(sample);
}

/// Takes the time of a frame, if there is one.
pub fn take_perf_sample(slots: &mut PerfSlots) -> (sample: Option<PerfSampleRecord>)
    ensures
        sample == old(slots).perf_sample,
        *final(slots) == (PerfSlots { perf_sample: None, ..*old(slots) }),
{
    slots.perf_sample.take()
}

} // verus!
