use vstd::prelude::*;

use crate::allowlist::check_device;
use crate::allowlist::pair_allowed;
use crate::caps::cap_present;
use crate::caps::check_capability;
use crate::device::major_of;
use crate::device::minor_of;
use crate::device::mode_class;
use crate::device::DeviceClass;
use crate::errno::EPERM;
use crate::path::extract_path;
use crate::path::spec_extract;
use crate::path::PATH_MAX;

verus! {

/// The outcome of the validation pipeline for one request: either the
/// creation is approved, or it is rejected with a positive OS error
/// number.
#[derive(Clone, Copy, Debug, PartialEq, Eq, Structural)]
pub enum Decision {
    Approve,
    Reject(i32),
}

/// Where one request stands in the strictly linear validation pipeline.
/// Each waiting stage names the outside observation the pipeline needs
/// next; `Done` is terminal.
#[derive(Clone, Copy, Debug, PartialEq, Eq, Structural)]
pub enum Stage {
    AwaitPath,
    AwaitCaps,
    AwaitProbe,
    Done(Decision),
}

/// The per-request validation state: the requesting process, the three
/// argument words of the creation syscall, and the current stage. All
/// of it is owned by the single invocation handling the request; there
/// is no shared mutable state between requests.
#[derive(Clone, Copy, Debug, PartialEq, Eq, Structural)]
pub struct Pipeline {
    pub pid: u32,
    pub path_addr: u64,
    pub mode: u64,
    pub dev: u64,
    pub stage: Stage,
}

/// The outside work the caller must perform next on the pipeline's
/// behalf, each bounded and scoped to this one request.
#[derive(Clone, Copy, Debug, PartialEq, Eq, Structural)]
pub enum Action {
    /// Read up to `max_len` bytes at `addr` out of the requesting
    /// process's memory, through a handle scoped to the read.
    ReadPath { pid: u32, addr: u64, max_len: usize },
    /// Query the process's current effective capability bitset, fresh,
    /// never cached.
    QueryCapabilities { pid: u32 },
    /// Probe, best-effort, that the PID still denotes a live waitable
    /// process before the approval is acted on.
    ProbeLiveness { pid: u32 },
    /// Terminal: answer the request with this decision.
    Respond(Decision),
}

/// The outcome of one piece of outside work, handed back to the
/// pipeline. Errors carry the positive OS error number, propagated
/// unchanged into the decision.
pub enum Event {
    PathRead(Result<Vec<u8>, i32>),
    Capabilities(Result<u32, i32>),
    Probed(Result<(), i32>),
}

/// The mathematical shape of an `Event`: the path bytes as a sequence.
pub enum EventView {
    PathRead(Result<Seq<u8>, i32>),
    Capabilities(Result<u32, i32>),
    Probed(Result<(), i32>),
}

impl View for Event {
    type V = EventView;

    open spec fn view(&self) -> EventView {
        match self {
            Event::PathRead(res) => EventView::PathRead(
                match res {
                    Ok(buf) => Ok(buf@),
                    Err(code) => Err(*code),
                },
            ),
            Event::Capabilities(res) => EventView::Capabilities(*res),
            Event::Probed(res) => EventView::Probed(*res),
        }
    }
}

/// An event's error, if any, is a positive OS error number.
pub open spec fn event_wf(e: EventView) -> bool {
    match e {
        EventView::PathRead(res) => res matches Err(code) ==> code > 0,
        EventView::Capabilities(res) => res matches Err(code) ==> code > 0,
        EventView::Probed(res) => res matches Err(code) ==> code > 0,
    }
}

/// A rejection always carries a positive OS error number.
pub open spec fn decision_wf(d: Decision) -> bool {
    d matches Decision::Reject(code) ==> code > 0
}

pub open spec fn pipeline_wf(p: Pipeline) -> bool {
    p.stage matches Stage::Done(d) ==> decision_wf(d)
}

/// Whether the event answers the outside work the stage is waiting on.
pub open spec fn expects(p: Pipeline, e: EventView) -> bool {
    match (p.stage, e) {
        (Stage::AwaitPath, EventView::PathRead(_)) => true,
        (Stage::AwaitCaps, EventView::Capabilities(_)) => true,
        (Stage::AwaitProbe, EventView::Probed(_)) => true,
        _ => false,
    }
}

pub open spec fn spec_start(pid: u32, path_addr: u64, mode: u64, dev: u64) -> Pipeline {
    Pipeline { pid, path_addr, mode, dev, stage: Stage::AwaitPath }
}

pub open spec fn done(p: Pipeline, d: Decision) -> Pipeline {
    Pipeline { stage: Stage::Done(d), ..p }
}

/// The pipeline's transition function: strictly linear, early exit on
/// every rejection, no stage after a rejection runs. An event that does
/// not answer the awaited stage leaves the state unchanged.
pub open spec fn spec_step(p: Pipeline, e: EventView) -> Pipeline {
    if !expects(p, e) {
        p
    } else {
        match e {
            EventView::PathRead(res) => match res {
                Err(code) => done(p, Decision::Reject(code)),
                Ok(bytes) => match spec_extract(bytes) {
                    Err(code) => done(p, Decision::Reject(code)),
                    Ok(_) => if mode_class(p.mode) != DeviceClass::Character {
                        done(p, Decision::Reject(EPERM))
                    } else if !pair_allowed(major_of(p.dev), minor_of(p.dev)) {
                        done(p, Decision::Reject(EPERM))
                    } else {
                        Pipeline { stage: Stage::AwaitCaps, ..p }
                    },
                },
            },
            EventView::Capabilities(res) => match res {
                Err(code) => done(p, Decision::Reject(code)),
                Ok(effective) => if cap_present(effective) {
                    Pipeline { stage: Stage::AwaitProbe, ..p }
                } else {
                    done(p, Decision::Reject(EPERM))
                },
            },
            EventView::Probed(res) => match res {
                Err(code) => done(p, Decision::Reject(code)),
                Ok(_) => done(p, Decision::Approve),
            },
        }
    }
}

/// A whole run: the pipeline folded over a sequence of stage outcomes.
pub open spec fn run(p: Pipeline, events: Seq<EventView>) -> Pipeline
    decreases events.len(),
{
    if events.len() == 0 {
        p
    } else {
        run(spec_step(p, events[0]), events.drop_first())
    }
}

impl Pipeline {
    /// Opens the validation of one device-creation request, from the
    /// syscall's first three argument words: the path address, the mode
    /// word, and the packed device number.
    pub fn start(pid: u32, path_addr: u64, mode: u64, dev: u64) -> (r: Pipeline)
        ensures
            r == spec_start(pid, path_addr, mode, dev),
            pipeline_wf(r),
    {
        Pipeline { pid, path_addr, mode, dev, stage: Stage::AwaitPath }
    }

    /// The outside work the caller must perform next.
    pub fn next_action(&self) -> (a: Action)
        ensures
            a == match self.stage {
                Stage::AwaitPath => Action::ReadPath {
                    pid: self.pid,
                    addr: self.path_addr,
                    max_len: PATH_MAX,
                },
                Stage::AwaitCaps => Action::QueryCapabilities { pid: self.pid },
                Stage::AwaitProbe => Action::ProbeLiveness { pid: self.pid },
                Stage::Done(d) => Action::Respond(d),
            },
    {
        match self.stage {
            Stage::AwaitPath => Action::ReadPath {
                pid: self.pid,
                addr: self.path_addr,
                max_len: PATH_MAX,
            },
            Stage::AwaitCaps => Action::QueryCapabilities { pid: self.pid },
            Stage::AwaitProbe => Action::ProbeLiveness { pid: self.pid },
            Stage::Done(d) => Action::Respond(d),
        }
    }

    /// Advances the pipeline by one stage outcome.
    pub fn step(self, e: &Event) -> (r: Pipeline)
        requires
            pipeline_wf(self),
            expects(self, e@),
            event_wf(e@),
        ensures
            r == spec_step(self, e@),
            pipeline_wf(r),
    {
        match e {
            Event::PathRead(res) => match res {
                Err(code) => self.rejected(*code),
                Ok(buffer) => match extract_path(buffer) {
                    Err(code) => self.rejected(code),
                    Ok(_path) => match check_device(self.mode, self.dev) {
                        Err(code) => self.rejected(code),
                        Ok(_device) => Pipeline { stage: Stage::AwaitCaps, ..self },
                    },
                },
            },
            Event::Capabilities(res) => match res {
                Err(code) => self.rejected(*code),
                Ok(effective) => match check_capability(*effective) {
                    Err(code) => self.rejected(code),
                    Ok(_) => Pipeline { stage: Stage::AwaitProbe, ..self },
                },
            },
            Event::Probed(res) => match res {
                Err(code) => self.rejected(*code),
                Ok(_) => Pipeline { stage: Stage::Done(Decision::Approve), ..self },
            },
        }
    }

    /// The decision, once the pipeline is terminal.
    pub fn decision(&self) -> (r: Option<Decision>)
        ensures
            r == match self.stage {
                Stage::Done(d) => Some(d),
                _ => None::<Decision>,
            },
    {
        match self.stage {
            Stage::Done(d) => Some(d),
            _ => None,
        }
    }

    fn rejected(self, code: i32) -> (r: Pipeline)
        requires
            code > 0,
        ensures
            r == done(self, Decision::Reject(code)),
            pipeline_wf(r),
    {
        Pipeline { stage: Stage::Done(Decision::Reject(code)), ..self }
    }
}

/// A device-creation request whose mode word does not carry the
/// character-device type bits is rejected with a permission error,
/// whatever its device numbers, once its path buffer has been read and
/// extracted.
pub proof fn lemma_non_character_request_rejected(
    pid: u32,
    addr: u64,
    mode: u64,
    dev: u64,
    bytes: Seq<u8>,
)
    requires
        spec_extract(bytes) is Ok,
        mode_class(mode) != DeviceClass::Character,
    ensures
        run(spec_start(pid, addr, mode, dev), seq![EventView::PathRead(Ok(bytes))]).stage
            == Stage::Done(Decision::Reject(EPERM)),
{
    let p0 = spec_start(pid, addr, mode, dev);
    let events = seq![EventView::PathRead(Ok(bytes))];
    assert(events.drop_first() =~= Seq::<EventView>::empty());
    assert(run(p0, events) == run(spec_step(p0, events[0]), events.drop_first()));
}

/// A character-device request for a (major, minor) pair off the
/// catalogue is rejected with a permission error.
pub proof fn lemma_unlisted_device_rejected(
    pid: u32,
    addr: u64,
    mode: u64,
    dev: u64,
    bytes: Seq<u8>,
)
    requires
        spec_extract(bytes) is Ok,
        !pair_allowed(major_of(dev), minor_of(dev)),
    ensures
        run(spec_start(pid, addr, mode, dev), seq![EventView::PathRead(Ok(bytes))]).stage
            == Stage::Done(Decision::Reject(EPERM)),
{
    let p0 = spec_start(pid, addr, mode, dev);
    let events = seq![EventView::PathRead(Ok(bytes))];
    assert(events.drop_first() =~= Seq::<EventView>::empty());
    assert(run(p0, events) == run(spec_step(p0, events[0]), events.drop_first()));
}

/// An allowed character-device request from a process whose effective
/// capability set lacks the required capability is rejected with a
/// permission error, although the device is on the catalogue.
pub proof fn lemma_missing_capability_rejected(
    pid: u32,
    addr: u64,
    mode: u64,
    dev: u64,
    bytes: Seq<u8>,
    effective: u32,
)
    requires
        spec_extract(bytes) is Ok,
        mode_class(mode) == DeviceClass::Character,
        pair_allowed(major_of(dev), minor_of(dev)),
        !cap_present(effective),
    ensures
        run(
            spec_start(pid, addr, mode, dev),
            seq![EventView::PathRead(Ok(bytes)), EventView::Capabilities(Ok(effective))],
        ).stage == Stage::Done(Decision::Reject(EPERM)),
{
    let p0 = spec_start(pid, addr, mode, dev);
    let events = seq![EventView::PathRead(Ok(bytes)), EventView::Capabilities(Ok(effective))];
    let p1 = spec_step(p0, events[0]);
    assert(p1.stage == Stage::AwaitCaps);
    let rest = events.drop_first();
    assert(rest =~= seq![EventView::Capabilities(Ok(effective))]);
    assert(rest.drop_first() =~= Seq::<EventView>::empty());
    assert(run(p0, events) == run(p1, rest));
    assert(run(p1, rest) == run(spec_step(p1, rest[0]), rest.drop_first()));
}

/// An allowed character-device request from a process holding the
/// required capability, whose PID is still live at probe time, is
/// approved; the pipeline decides this one creation and nothing else.
pub proof fn lemma_allowed_request_approved(
    pid: u32,
    addr: u64,
    mode: u64,
    dev: u64,
    bytes: Seq<u8>,
    effective: u32,
)
    requires
        spec_extract(bytes) is Ok,
        mode_class(mode) == DeviceClass::Character,
        pair_allowed(major_of(dev), minor_of(dev)),
        cap_present(effective),
    ensures
        run(
            spec_start(pid, addr, mode, dev),
            seq![
                EventView::PathRead(Ok(bytes)),
                EventView::Capabilities(Ok(effective)),
                EventView::Probed(Ok(())),
            ],
        ).stage == Stage::Done(Decision::Approve),
{
    let p0 = spec_start(pid, addr, mode, dev);
    let events = seq![
        EventView::PathRead(Ok(bytes)),
        EventView::Capabilities(Ok(effective)),
        EventView::Probed(Ok(())),
    ];
    let p1 = spec_step(p0, events[0]);
    assert(p1.stage == Stage::AwaitCaps);
    let rest = events.drop_first();
    assert(rest =~= seq![EventView::Capabilities(Ok(effective)), EventView::Probed(Ok(()))]);
    let p2 = spec_step(p1, rest[0]);
    assert(p2.stage == Stage::AwaitProbe);
    let last = rest.drop_first();
    assert(last =~= seq![EventView::Probed(Ok(()))]);
    assert(last.drop_first() =~= Seq::<EventView>::empty());
    assert(run(p0, events) == run(p1, rest));
    assert(run(p1, rest) == run(p2, last));
    assert(run(p2, last) == run(spec_step(p2, last[0]), last.drop_first()));
}

/// A terminal pipeline is final: once a request is decided, no further
/// outcome moves it, so no stage runs after a rejection.
pub proof fn lemma_terminal_state_is_final(p: Pipeline, e: EventView)
    requires
        p.stage is Done,
    ensures
        spec_step(p, e) == p,
{
}

/// Repeating the identical request while every stage outcome is
/// unchanged yields the identical terminal state: the decision is a
/// function of the request's words and the observed outcomes alone.
pub proof fn lemma_identical_request_identical_outcome(
    first: Pipeline,
    second: Pipeline,
    outcomes_first: Seq<EventView>,
    outcomes_second: Seq<EventView>,
)
    requires
        first == second,
        outcomes_first == outcomes_second,
    ensures
        run(first, outcomes_first) == run(second, outcomes_second),
{
}

} // verus!
