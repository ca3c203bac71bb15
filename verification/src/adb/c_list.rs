//! Lists of devices for callers that know strings only as bytes up to a zero.

use crate::adb::devices::{Device, Entry};
use crate::adb::track_devices::Snapshot;
use crate::bytes::{c_string, to_c_string};
use vstd::prelude::*;

verus! {

/// A device, with strings that end in a zero byte.
#[derive(Debug)]
pub struct BridgeAdbDevice {
    pub serial: Vec<u8>,
    pub state: Vec<u8>,
}

/// A list of all devices.
#[derive(Debug)]
pub struct BridgeAdbDeviceList {
    pub devices: Vec<BridgeAdbDevice>,
}

impl BridgeAdbDevice {
    /// Whether this is a device's. A serial or a state that holds a zero
    /// itself cannot be told, and is left empty.
    pub open spec fn stands_for(self, entry: Entry) -> bool {
        self.serial@ == c_string(entry.serial) && self.state@ == c_string(entry.state)
    }
}

impl BridgeAdbDeviceList {
    /// Whether this is a list of exactly these devices, in order.
    pub open spec fn stands_for(self, devices: Seq<Device>) -> bool {
        &&& self.devices@.len() == devices.len()
        &&& forall|i: int|
            0 <= i < devices.len() ==> (#[trigger] self.devices@[i]).stands_for(
                devices[i].entry(),
            )
    }
}

/// Rewrites a list of devices.
pub fn device_list_to_c(devices: &Vec<Device>) -> (list: BridgeAdbDeviceList)
    ensures
        list.stands_for(devices@),
{
    let mut rewritten: Vec<BridgeAdbDevice> = Vec::new();
    let mut i: usize = 0;
    while i < devices.len()
        invariant
            i <= devices.len(),
            rewritten@.len() == i,
            forall|j: int|
                0 <= j < i ==> (#[trigger] rewritten@[j]).stands_for(devices@[j].entry()),
        decreases devices.len() - i,
    {
        let serial = to_c_string(devices[i].serial.as_str());
        let state = to_c_string(devices[i].state.as_str());
        rewritten.push(BridgeAdbDevice { serial, state });
        i += 1;
    }
    BridgeAdbDeviceList { devices: rewritten }
}

/// The list to hand out for what was read, if that is a list.
pub fn snapshot_to_c(snapshot: &Snapshot) -> (list: Option<BridgeAdbDeviceList>)
    ensures
        list is Some <==> snapshot is Devices,
        list is Some ==> list->0.stands_for(snapshot->Devices_0@),
{
    match snapshot {
        Snapshot::Devices(devices) => Some(device_list_to_c(devices)),
        _ => None,
    }
}

} // verus!
