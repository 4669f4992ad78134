//! A syscall-interception policy handler for device-node creation: it
//! classifies an intercepted request, checks it against a fixed
//! allow-list of character devices, verifies the caller's privilege, and
//! produces a definite approve-or-reject decision for every request.

pub mod allowlist;
pub mod caps;
pub mod device;
pub mod dispatch;
pub mod errno;
pub mod path;
pub mod pipeline;
