use vstd::prelude::*;

use crate::errno::EPERM;

verus! {

/// Index of the capability that raw device-node creation requires.
pub const CAP_MKNOD: u32 = 27;

/// Whether the required capability is present in an effective
/// capability bitset.
pub open spec fn cap_present(effective: u32) -> bool {
    effective & (1u32 << CAP_MKNOD) != 0
}

/// The privilege decision: given the freshly queried effective
/// capability bitset of the requesting process, permit the request only
/// when the capability for raw device-node creation is present.
pub fn check_capability(effective: u32) -> (r: Result<(), i32>)
    ensures
        r is Ok <==> cap_present(effective),
        r matches Err(code) ==> code == EPERM,
{
    if effective & (1u32 << CAP_MKNOD) != 0 {
        Ok(())
    } else {
        Err(EPERM)
    }
}

} // verus!
