use seccomp_notify::caps::CAP_MKNOD;
use seccomp_notify::device::S_IFBLK;
use seccomp_notify::device::S_IFCHR;
use seccomp_notify::dispatch::check_configuration_size;
use seccomp_notify::dispatch::dispatch;
use seccomp_notify::dispatch::disposition_code;
use seccomp_notify::dispatch::disposition_for;
use seccomp_notify::dispatch::plugin_version;
use seccomp_notify::dispatch::respond;
use seccomp_notify::dispatch::Disposition;
use seccomp_notify::dispatch::InterceptedRequest;
use seccomp_notify::dispatch::Routing;
use seccomp_notify::dispatch::MKNOD_SYSCALL;
use seccomp_notify::errno::EINVAL;
use seccomp_notify::errno::EPERM;
use seccomp_notify::path::PATH_MAX;
use seccomp_notify::pipeline::Action;
use seccomp_notify::pipeline::Decision;
use seccomp_notify::pipeline::Event;
use seccomp_notify::pipeline::Pipeline;
use seccomp_notify::pipeline::Stage;

const CHAR_MODE: u64 = (S_IFCHR as u64) | 0o666;
const BLOCK_MODE: u64 = (S_IFBLK as u64) | 0o666;
const CAP_BIT: u32 = 1 << CAP_MKNOD;

fn dev_word(major: u64, minor: u64) -> u64 {
    (major << 8) | minor
}

fn mknod_request(pid: u32, mode: u64, dev: u64) -> InterceptedRequest {
    InterceptedRequest {
        id: 0xFEED_BEEF,
        pid,
        nr: MKNOD_SYSCALL,
        args: [0x1000, mode, dev, 0, 0, 0],
    }
}

fn path_buffer(path: &str) -> Vec<u8> {
    let mut buffer = path.as_bytes().to_vec();
    buffer.push(0);
    buffer
}

#[test]
fn unrecognized_syscall_is_not_handled() {
    for nr in [0, 1, MKNOD_SYSCALL - 1, MKNOD_SYSCALL + 1, -1] {
        let req = InterceptedRequest { id: 7, pid: 42, nr, args: [0; 6] };
        let routing = dispatch(&req);
        assert!(matches!(routing, Routing::NotHandled));
        let disposition = disposition_for(&routing);
        assert_eq!(disposition, Disposition::NotHandled);
        assert_eq!(disposition_code(disposition), 0);
    }
}

#[test]
fn mknod_syscall_enters_the_pipeline() {
    let req = mknod_request(42, CHAR_MODE, dev_word(1, 3));
    let routing = dispatch(&req);
    let pipeline = match routing {
        Routing::Mknod(p) => p,
        Routing::NotHandled => panic!("mknod must be handled"),
    };
    assert_eq!(
        pipeline.next_action(),
        Action::ReadPath { pid: 42, addr: 0x1000, max_len: PATH_MAX }
    );
    let routing = dispatch(&req);
    assert_eq!(disposition_code(disposition_for(&routing)), 1);
}

fn run_pipeline(pipeline: Pipeline, mut events: Vec<Event>) -> Decision {
    let mut p = pipeline;
    events.reverse();
    loop {
        match p.next_action() {
            Action::Respond(d) => return d,
            _ => {
                let e = events.pop().expect("pipeline asked for more events");
                p = p.step(&e);
            }
        }
    }
}

fn start_for(mode: u64, dev: u64) -> Pipeline {
    match dispatch(&mknod_request(42, mode, dev)) {
        Routing::Mknod(p) => p,
        Routing::NotHandled => panic!("mknod must be handled"),
    }
}

#[test]
fn approved_zero_device_answers_success() {
    let pipeline = start_for(CHAR_MODE, dev_word(1, 5));
    let decision = run_pipeline(
        pipeline,
        vec![
            Event::PathRead(Ok(path_buffer("/dev/zero"))),
            Event::Capabilities(Ok(CAP_BIT)),
            Event::Probed(Ok(())),
        ],
    );
    assert_eq!(decision, Decision::Approve);
    let response = respond(0xFEED_BEEF, decision);
    assert_eq!(response.id, 0xFEED_BEEF);
    assert_eq!(response.val, 0);
    assert_eq!(response.error, 0);
}

#[test]
fn block_device_is_rejected_before_later_stages() {
    let pipeline = start_for(BLOCK_MODE, dev_word(1, 5));
    let decision =
        run_pipeline(pipeline, vec![Event::PathRead(Ok(path_buffer("/dev/zero")))]);
    assert_eq!(decision, Decision::Reject(EPERM));
    assert_eq!(respond(0xFEED_BEEF, decision).error, -EPERM);
}

#[test]
fn unlisted_pair_is_rejected_despite_character_class() {
    for (major, minor) in [(1, 4), (1, 10), (2, 3), (0, 0), (0xAB, 0xCD)] {
        let pipeline = start_for(CHAR_MODE, dev_word(major, minor));
        let decision =
            run_pipeline(pipeline, vec![Event::PathRead(Ok(path_buffer("/dev/x")))]);
        assert_eq!(decision, Decision::Reject(EPERM));
    }
}

#[test]
fn missing_capability_is_rejected_for_listed_null_device() {
    let pipeline = start_for(CHAR_MODE, dev_word(1, 3));
    let decision = run_pipeline(
        pipeline,
        vec![
            Event::PathRead(Ok(path_buffer("/dev/null"))),
            Event::Capabilities(Ok(!CAP_BIT)),
        ],
    );
    assert_eq!(decision, Decision::Reject(EPERM));
}

#[test]
fn unterminated_path_read_is_invalid_argument() {
    let pipeline = start_for(CHAR_MODE, dev_word(1, 3));
    let decision = run_pipeline(pipeline, vec![Event::PathRead(Ok(vec![b'a'; PATH_MAX]))]);
    assert_eq!(decision, Decision::Reject(EINVAL));
}

#[test]
fn empty_path_is_no_rejection_reason() {
    // A null at offset zero decodes to the empty string; the class,
    // allow-list and capability checks still run and decide.
    let pipeline = start_for(CHAR_MODE, dev_word(1, 3));
    let decision = run_pipeline(
        pipeline,
        vec![
            Event::PathRead(Ok(vec![0u8; 8])),
            Event::Capabilities(Ok(CAP_BIT)),
            Event::Probed(Ok(())),
        ],
    );
    assert_eq!(decision, Decision::Approve);

    let pipeline = start_for(CHAR_MODE, dev_word(1, 4));
    let decision = run_pipeline(pipeline, vec![Event::PathRead(Ok(vec![0u8; 8]))]);
    assert_eq!(decision, Decision::Reject(EPERM));
}

#[test]
fn os_errors_propagate_unchanged() {
    let pipeline = start_for(CHAR_MODE, dev_word(1, 3));
    let decision = run_pipeline(pipeline, vec![Event::PathRead(Err(5))]);
    assert_eq!(decision, Decision::Reject(5));
    assert_eq!(respond(1, decision).error, -5);

    let pipeline = start_for(CHAR_MODE, dev_word(1, 3));
    let decision = run_pipeline(
        pipeline,
        vec![Event::PathRead(Ok(path_buffer("/dev/null"))), Event::Capabilities(Err(3))],
    );
    assert_eq!(decision, Decision::Reject(3));

    let pipeline = start_for(CHAR_MODE, dev_word(1, 3));
    let decision = run_pipeline(
        pipeline,
        vec![
            Event::PathRead(Ok(path_buffer("/dev/null"))),
            Event::Capabilities(Ok(CAP_BIT)),
            Event::Probed(Err(10)),
        ],
    );
    assert_eq!(decision, Decision::Reject(10));
}

#[test]
fn identical_request_yields_identical_decision() {
    let events = || {
        vec![
            Event::PathRead(Ok(path_buffer("/dev/full"))),
            Event::Capabilities(Ok(CAP_BIT)),
            Event::Probed(Ok(())),
        ]
    };
    let first = run_pipeline(start_for(CHAR_MODE, dev_word(1, 7)), events());
    let second = run_pipeline(start_for(CHAR_MODE, dev_word(1, 7)), events());
    assert_eq!(first, second);
}

#[test]
fn interleaved_requests_stay_independent() {
    // Two concurrent invocations share nothing mutable: advancing one
    // pipeline never moves the other.
    let mut a = start_for(CHAR_MODE, dev_word(1, 5));
    let mut b = start_for(CHAR_MODE, dev_word(2, 9));
    a = a.step(&Event::PathRead(Ok(path_buffer("/dev/zero"))));
    assert_eq!(b.stage, Stage::AwaitPath);
    b = b.step(&Event::PathRead(Ok(path_buffer("/dev/x"))));
    assert_eq!(b.stage, Stage::Done(Decision::Reject(EPERM)));
    a = a.step(&Event::Capabilities(Ok(CAP_BIT)));
    a = a.step(&Event::Probed(Ok(())));
    assert_eq!(a.stage, Stage::Done(Decision::Approve));
    assert_eq!(b.stage, Stage::Done(Decision::Reject(EPERM)));
}

#[test]
fn configuration_size_must_match() {
    assert_eq!(check_configuration_size(32, 32), 0);
    assert_eq!(check_configuration_size(32, 16), -EINVAL);
    assert_eq!(check_configuration_size(0, 8), -EINVAL);
}

#[test]
fn version_is_fixed() {
    assert_eq!(plugin_version(), 1);
}

#[test]
fn disposition_codes_match_the_wire_values() {
    assert_eq!(disposition_code(Disposition::NotHandled), 0);
    assert_eq!(disposition_code(Disposition::SendResponse), 1);
    assert_eq!(disposition_code(Disposition::DelayedResponse), 2);
}
