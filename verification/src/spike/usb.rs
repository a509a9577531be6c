//! USB device detection of a GoPro Hero 8.
use vstd::prelude::*;

verus! {

/// GoPro USB vendor ID
pub const GOPRO_VID: u16 = 0x0ae4;
/// USB product ID of the Hero 8
pub const GOPRO_PID_HERO8: u16 = 0x0f01;

/// Whether a GoPro Hero 8 is among the USB devices, given as
/// (vendor ID, product ID) pairs.
pub fn hero8_present(devices: &Vec<(u16, u16)>) -> (found: bool)
    ensures
        found == exists|i: int| 0 <= i < devices.len()
            && (#[trigger] devices@[i]).0 == GOPRO_VID && devices@[i].1 == GOPRO_PID_HERO8,
{
    let n = devices.len();
    for i in 0..n
        invariant
            n == devices.len(),
            forall|j: int| 0 <= j < i ==> !((#[trigger] devices@[j]).0 == GOPRO_VID && devices@[j].1 == GOPRO_PID_HERO8),
    {
        if devices[i].0 == GOPRO_VID && devices[i].1 == GOPRO_PID_HERO8 {
            return true;
        }
    }
    false
}

} // verus!
