use vstd::prelude::*;

use crate::errno::EINVAL;
use crate::pipeline::decision_wf;
use crate::pipeline::spec_start;
use crate::pipeline::Decision;
use crate::pipeline::Pipeline;

verus! {

/// The syscall number this handler recognizes: device-node creation.
pub const MKNOD_SYSCALL: i32 = 133;

/// The version this plugin interface reports.
pub const PLUGIN_VERSION: i32 = 1;

/// An immutable view of one pending syscall notification, delivered
/// once by the transport and owned by the dispatcher for the duration
/// of one handling call.
#[derive(Clone, Copy, Debug)]
pub struct InterceptedRequest {
    pub id: u64,
    pub pid: u32,
    pub nr: i32,
    pub args: [u64; 6],
}

/// The outbound record answering one notification: it echoes the
/// inbound request id, and carries 0 on success or the negative OS
/// error number of the rejection.
#[derive(Clone, Copy, Debug, PartialEq, Eq, Structural)]
pub struct Response {
    pub id: u64,
    pub val: i64,
    pub error: i32,
}

/// How the handler disposed of a notification: passed over for an
/// upstream chain, answered synchronously, or deferred (never produced
/// by this handler, which always resolves synchronously).
#[derive(Clone, Copy, Debug, PartialEq, Eq, Structural)]
pub enum Disposition {
    NotHandled,
    SendResponse,
    DelayedResponse,
}

/// Where the dispatcher sends one request: every device-creation
/// request enters the validation pipeline and is always answered; any
/// other syscall is explicitly left to an upstream chain, with no
/// response value issued.
pub enum Routing {
    NotHandled,
    Mknod(Pipeline),
}

/// Routes one intercepted syscall. Only the device-node-creation
/// syscall is recognized; for it the validation pipeline is opened on
/// the syscall's argument words.
pub fn dispatch(req: &InterceptedRequest) -> (r: Routing)
    ensures
        req.nr != MKNOD_SYSCALL ==> r is NotHandled,
        req.nr == MKNOD_SYSCALL ==> r == Routing::Mknod(
            spec_start(req.pid, req.args[0], req.args[1], req.args[2]),
        ),
{
    if req.nr == MKNOD_SYSCALL {
        Routing::Mknod(Pipeline::start(req.pid, req.args[0], req.args[1], req.args[2]))
    } else {
        Routing::NotHandled
    }
}

/// The disposition flag for a routing: a recognized request is always
/// answered synchronously, anything else is reported not handled.
pub fn disposition_for(r: &Routing) -> (d: Disposition)
    ensures
        d == Disposition::NotHandled <==> r is NotHandled,
        d == Disposition::SendResponse <==> r is Mknod,
{
    match r {
        Routing::NotHandled => Disposition::NotHandled,
        Routing::Mknod(_) => Disposition::SendResponse,
    }
}

/// The wire value of a disposition flag.
pub fn disposition_code(d: Disposition) -> (r: i32)
    ensures
        (r == 0 <==> d == Disposition::NotHandled),
        (r == 1 <==> d == Disposition::SendResponse),
        (r == 2 <==> d == Disposition::DelayedResponse),
{
    match d {
        Disposition::NotHandled => 0,
        Disposition::SendResponse => 1,
        Disposition::DelayedResponse => 2,
    }
}

/// The error code a decision answers with: 0 on approval, the negative
/// OS error number of the rejection otherwise.
pub open spec fn error_code(d: Decision) -> int {
    match d {
        Decision::Approve => 0,
        Decision::Reject(code) => -code,
    }
}

/// Builds the outbound response for a terminal decision: the
/// correlation id echoes the inbound request, the value field is fixed
/// at 0, and the error code is 0 exactly on approval.
pub fn respond(request_id: u64, d: Decision) -> (r: Response)
    requires
        decision_wf(d),
    ensures
        r.id == request_id,
        r.val == 0,
        r.error == error_code(d),
        r.error == 0 <==> d == Decision::Approve,
        r.error <= 0,
{
    let error = match d {
        Decision::Approve => 0,
        Decision::Reject(code) => -code,
    };
    Response { id: request_id, val: 0, error }
}

/// Validates the size a host hands with its configuration record
/// against the expected layout: a mismatch is an invalid argument, a
/// match reports success.
pub fn check_configuration_size(expected: usize, given: usize) -> (r: i32)
    ensures
        r == 0 <==> expected == given,
        expected != given ==> r == -EINVAL,
{
    if expected == given {
        0
    } else {
        -EINVAL
    }
}

/// The fixed version the plugin interface reports.
pub fn plugin_version() -> (r: i32)
    ensures
        r == PLUGIN_VERSION,
{
    PLUGIN_VERSION
}

} // verus!
