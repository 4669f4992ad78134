use vstd::prelude::*;

verus! {

/// File-type mask of a mode word.
pub const S_IFMT: u32 = 0o170000;

/// File-type bits of a character device.
pub const S_IFCHR: u32 = 0o020000;

/// File-type bits of a block device.
pub const S_IFBLK: u32 = 0o060000;

/// The class of device a creation request asks for, read from the
/// file-type bits of its mode word.
#[derive(Clone, Copy, Debug, PartialEq, Eq, Structural)]
pub enum DeviceClass {
    Character,
    Block,
    Other,
}

/// The interpretation of one request's argument words: the device class
/// from the mode word, and the major and minor numbers unpacked from the
/// combined device-number word.
#[derive(Clone, Copy, Debug, PartialEq, Eq, Structural)]
pub struct ClassifiedDevice {
    pub class: DeviceClass,
    pub major: u32,
    pub minor: u32,
}

pub open spec fn mode_class(mode: u64) -> DeviceClass {
    if (mode as u32) & S_IFMT == S_IFCHR {
        DeviceClass::Character
    } else if (mode as u32) & S_IFMT == S_IFBLK {
        DeviceClass::Block
    } else {
        DeviceClass::Other
    }
}

/// Major number: bits 8 to 15 of the packed device-number word.
pub open spec fn major_of(dev: u64) -> u32 {
    ((dev >> 8) & 0xFF) as u32
}

/// Minor number: bits 0 to 7 of the packed device-number word.
pub open spec fn minor_of(dev: u64) -> u32 {
    (dev & 0xFF) as u32
}

/// Interprets the mode word and the packed device-number word of a
/// device-creation request. Pure and total: classification itself has no
/// failure mode.
pub fn classify_device(mode: u64, dev: u64) -> (r: ClassifiedDevice)
    ensures
        r.class == mode_class(mode),
        r.major == major_of(dev),
        r.minor == minor_of(dev),
{
    let file_type: u32 = (mode as u32) & S_IFMT;
    let class = if file_type == S_IFCHR {
        DeviceClass::Character
    } else if file_type == S_IFBLK {
        DeviceClass::Block
    } else {
        DeviceClass::Other
    };
    ClassifiedDevice { class, major: ((dev >> 8) & 0xFF) as u32, minor: (dev & 0xFF) as u32 }
}

} // verus!
