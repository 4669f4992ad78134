use vstd::prelude::*;

verus! {

/// Operation not permitted: every policy denial (wrong device class,
/// unlisted device, missing capability, failed liveness probe) maps here.
pub const EPERM: i32 = 1;

/// Invalid argument: malformed input, such as an unterminated or
/// non-decodable path buffer, or a configuration size mismatch.
pub const EINVAL: i32 = 22;

} // verus!
