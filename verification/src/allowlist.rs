use vstd::prelude::*;

use crate::device::classify_device;
use crate::device::major_of;
use crate::device::minor_of;
use crate::device::mode_class;
use crate::device::DeviceClass;
use crate::errno::EPERM;

verus! {

/// One approved catalogue entry. The canonical path is kept for audit
/// only; matching rests solely on the (major, minor) pair.
#[derive(Clone, Copy, Debug)]
pub struct Device {
    pub path: &'static str,
    pub class: DeviceClass,
    pub major: u32,
    pub minor: u32,
}

/// The (major, minor) pairs the catalogue approves: the conventional
/// minor character devices, and nothing that grants filesystem, block,
/// or hardware access.
pub open spec fn pair_allowed(major: u32, minor: u32) -> bool {
    major == 1 && (minor == 3 || minor == 5 || minor == 7 || minor == 8 || minor == 9)
}

/// The canonical audit path the catalogue records for an allowed pair.
pub open spec fn catalogue_path(major: u32, minor: u32) -> Seq<char> {
    if minor == 3 {
        "/dev/null"@
    } else if minor == 5 {
        "/dev/zero"@
    } else if minor == 7 {
        "/dev/full"@
    } else if minor == 8 {
        "/dev/random"@
    } else {
        "/dev/urandom"@
    }
}

/// The static catalogue of approved devices. Its (major, minor) pairs
/// are unique, every entry is a character device, and an entry exists
/// exactly for the allowed pairs.
pub fn allowed_devices() -> (r: Vec<Device>)
    ensures
        r@.len() == 5,
        forall|k: int| 0 <= k < r@.len() ==> (#[trigger] r@[k]).class == DeviceClass::Character,
        forall|k: int|
            0 <= k < r@.len() ==> pair_allowed((#[trigger] r@[k]).major, r@[k].minor),
        r@[0].major == 1 && r@[0].minor == 3 && r@[0].path@ == "/dev/null"@,
        r@[1].major == 1 && r@[1].minor == 5 && r@[1].path@ == "/dev/zero"@,
        r@[2].major == 1 && r@[2].minor == 7 && r@[2].path@ == "/dev/full"@,
        r@[3].major == 1 && r@[3].minor == 8 && r@[3].path@ == "/dev/random"@,
        r@[4].major == 1 && r@[4].minor == 9 && r@[4].path@ == "/dev/urandom"@,
        forall|i: int, j: int|
            0 <= i < r@.len() && 0 <= j < r@.len() && i != j ==> !((#[trigger] r@[i]).major
                == (#[trigger] r@[j]).major && r@[i].minor == r@[j].minor),
{
    let mut table: Vec<Device> = Vec::new();
    table.push(Device { path: "/dev/null", class: DeviceClass::Character, major: 1, minor: 3 });
    table.push(Device { path: "/dev/zero", class: DeviceClass::Character, major: 1, minor: 5 });
    table.push(Device { path: "/dev/full", class: DeviceClass::Character, major: 1, minor: 7 });
    table.push(Device { path: "/dev/random", class: DeviceClass::Character, major: 1, minor: 8 });
    table.push(
        Device { path: "/dev/urandom", class: DeviceClass::Character, major: 1, minor: 9 },
    );
    table
}

/// Searches the catalogue for an exact match on both numbers; there is
/// no wildcard or range matching.
#[verifier::loop_isolation(false)]
pub fn find_allowed_device(major: u32, minor: u32) -> (r: Option<Device>)
    ensures
        r is Some <==> pair_allowed(major, minor),
        r matches Some(d) ==> d.major == major && d.minor == minor && d.class
            == DeviceClass::Character,
        r matches Some(d) ==> d.path@ == catalogue_path(major, minor),
{
    let table = allowed_devices();
    let mut i: usize = 0;
    while i < table.len()
        invariant
            0 <= i <= table@.len(),
            forall|k: int|
                0 <= k < i ==> !((#[trigger] table@[k]).major == major && table@[k].minor
                    == minor),
        decreases table@.len() - i,
    {
        let entry = table[i];
        if entry.major == major && entry.minor == minor {
            return Some(entry);
        }
        i = i + 1;
    }
    None
}

/// The device-policy core: classify the request's words, admit only
/// character devices, and match the catalogue. A non-character class is
/// rejected regardless of the device numbers; a character device off
/// the catalogue is rejected as well.
pub fn check_device(mode: u64, dev: u64) -> (r: Result<Device, i32>)
    ensures
        mode_class(mode) != DeviceClass::Character ==> r == Err::<Device, i32>(EPERM),
        mode_class(mode) == DeviceClass::Character && !pair_allowed(
            major_of(dev),
            minor_of(dev),
        ) ==> r == Err::<Device, i32>(EPERM),
        r is Ok <==> (mode_class(mode) == DeviceClass::Character && pair_allowed(
            major_of(dev),
            minor_of(dev),
        )),
        r matches Ok(d) ==> d.major == major_of(dev) && d.minor == minor_of(dev) && d.class
            == DeviceClass::Character && d.path@ == catalogue_path(major_of(dev), minor_of(dev)),
{
    let classified = classify_device(mode, dev);
    if !matches!(classified.class, DeviceClass::Character) {
        return Err(EPERM);
    }
    match find_allowed_device(classified.major, classified.minor) {
        None => Err(EPERM),
        Some(d) => Ok(d),
    }
}

} // verus!
