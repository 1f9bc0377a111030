use fbpml::control::{ControlOutcome, ControlRequest, Method, Operation, NO_CONTENT};
use fbpml::Delay;

#[test]
fn pause_and_resume_patch_the_machine_state() {
    let pause = ControlRequest::pause();
    assert_eq!(pause.method, Method::Patch);
    assert_eq!(pause.path, "/vm");
    assert_eq!(pause.body, r#"{"state":"Paused"}"#);
    let resume = ControlRequest::resume();
    assert_eq!(resume.method, Method::Patch);
    assert_eq!(resume.path, "/vm");
    assert_eq!(resume.body, r#"{"state":"Resumed"}"#);
}

#[test]
fn every_request_names_json_in_both_headers() {
    for r in [
        ControlRequest::pause(),
        ControlRequest::resume(),
        ControlRequest::restore("s", "m"),
        ControlRequest::create_snapshot("s", "m"),
    ] {
        assert_eq!(r.accept, "application/json");
        assert_eq!(r.content_type, "application/json");
    }
}

#[test]
fn restore_puts_the_snapshot_to_load() {
    let r = ControlRequest::restore("/store/snapshot-0A.file", "/store/memory-0A.file");
    assert_eq!(r.method, Method::Put);
    assert_eq!(r.path, "/snapshot/load");
    assert_eq!(
        r.body,
        r#"{"snapshot_path":"/store/snapshot-0A.file","mem_file_path":"/store/memory-0A.file","enable_diff_snapshots":false,"resume_vm":false}"#
    );
}

#[test]
fn create_snapshot_puts_a_full_snapshot() {
    let r = ControlRequest::create_snapshot("/store/snapshot-0A.file", "/store/memory-0A.file");
    assert_eq!(r.method, Method::Put);
    assert_eq!(r.path, "/snapshot/create");
    assert_eq!(
        r.body,
        r#"{"snapshot_path":"/store/snapshot-0A.file","mem_file_path":"/store/memory-0A.file","snapshot_type":"Full"}"#
    );
}

#[test]
fn only_status_204_is_success() {
    assert_eq!(NO_CONTENT, 204);
    let ok = ControlOutcome::Replied { status: 204, elapsed: Delay::from_millis(50) };
    assert_eq!(ok.settle("/tmp/fc.sock", Operation::Restore), Ok(Delay::from_millis(50)));
}

#[test]
fn any_other_status_is_an_error_that_carries_it() {
    for status in [200u16, 201, 202, 203, 205, 304, 400, 404, 500, 0, u16::MAX] {
        let outcome = ControlOutcome::Replied { status, elapsed: Delay::from_millis(1) };
        let e = outcome.settle("/tmp/fc.sock", Operation::Pause).unwrap_err();
        assert_eq!(e.status, Some(status));
        assert_eq!(e.socket, "/tmp/fc.sock");
        assert_eq!(e.operation, Operation::Pause);
    }
}

#[test]
fn request_without_answer_is_an_error_without_status() {
    let e = ControlOutcome::Unsent.settle("/tmp/fc.sock", Operation::CreateSnapshot).unwrap_err();
    assert_eq!(e.status, None);
    assert_eq!(e.socket, "/tmp/fc.sock");
    assert_eq!(e.operation, Operation::CreateSnapshot);
}
