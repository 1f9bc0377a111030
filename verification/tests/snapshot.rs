use fbpml::control::{ControlOutcome, ControlPlaneError, Operation};
use fbpml::layout::Cmd;
use fbpml::liveness::TimeoutError;
use fbpml::snapshot::{
    gather, SnapshotCause, SnapshotError, SnapshotTask, Stage, TaskAction, TaskEvent,
    SETTLE_END_MS, SETTLE_MIN_MS,
};
use fbpml::worker::Status;
use fbpml::Delay;
use rand::rngs::StdRng;
use rand::SeedableRng;

fn cmd(cleanup: bool) -> Cmd {
    Cmd {
        bench: String::from("lr_serving"),
        num_uvms: 16,
        vm_mem: 512,
        vcpu_count: 2,
        store_path: String::from("/store"),
        cleanup,
        rootfs_dir: String::from("/images"),
        fc_bin: String::from("/usr/bin/firecracker"),
        kernel_image_path: String::from("/boot/vmlinux"),
    }
}

fn ok204() -> TaskEvent {
    TaskEvent::Controlled(ControlOutcome::Replied { status: 204, elapsed: Delay::from_millis(1) })
}

/// Runs a task whose every request succeeds; the service refuses the first
/// `refusals` connections of each wait. Returns a word for each action.
fn run(cleanup: bool, refusals: u32) -> Vec<String> {
    let mut rng = StdRng::seed_from_u64(7);
    let mut task = SnapshotTask::new(10, cmd(cleanup));
    let mut seen = Vec::new();
    let mut refused = 0;
    let mut action = task.step(TaskEvent::Started, &mut rng);
    loop {
        let (word, event) = match &action {
            TaskAction::RemoveStale { socket } => (format!("clear {socket}"), TaskEvent::Done),
            TaskAction::Truncate { log, metrics } => {
                (format!("truncate {log} {metrics}"), TaskEvent::Done)
            }
            TaskAction::WriteConfig { path, .. } => (format!("config {path}"), TaskEvent::Done),
            TaskAction::Spawn { program, args } => {
                (format!("spawn {program} {}", args.join(" ")), TaskEvent::Done)
            }
            TaskAction::Connect { address } => {
                if refused < refusals {
                    refused += 1;
                    (format!("connect {address}"), TaskEvent::Refused)
                } else {
                    refused = 0;
                    (format!("connect {address}"), TaskEvent::Connected)
                }
            }
            TaskAction::Sleep { .. } => (String::from("sleep"), TaskEvent::Slept),
            TaskAction::Control { socket, request } => {
                (format!("control {socket} {}", request.path), ok204())
            }
            TaskAction::Tick => (String::from("tick"), TaskEvent::Done),
            TaskAction::Kill => (String::from("kill"), TaskEvent::Done),
            TaskAction::Remove { socket, config } => {
                (format!("remove {socket} {config}"), TaskEvent::Done)
            }
            TaskAction::Finish => {
                seen.push(String::from("finish"));
                break;
            }
            TaskAction::Fail(e) => panic!("unexpected failure {:?}", e),
        };
        seen.push(word);
        action = task.step(event, &mut rng);
    }
    assert_eq!(task.status(), Status::Done);
    seen
}

#[test]
fn task_goes_through_every_stage_in_order() {
    assert_eq!(
        run(true, 0),
        vec![
            "clear /tmp/firecracker-lr_serving-0A.socket",
            "truncate /store/logs/fc-lr_serving-0A.log /store/metrics/fc-lr_serving-0A.metrics",
            "config /tmp/lr_serving-0A.json",
            "spawn /usr/bin/firecracker --id lr-serving-0A --config-file /tmp/lr_serving-0A.json --api-sock /tmp/firecracker-lr_serving-0A.socket",
            "connect 10.0.10.2:50051",
            "sleep",
            "control /tmp/firecracker-lr_serving-0A.socket /vm",
            "control /tmp/firecracker-lr_serving-0A.socket /snapshot/create",
            "control /tmp/firecracker-lr_serving-0A.socket /vm",
            "connect 10.0.10.2:50051",
            "tick",
            "kill",
            "remove /tmp/firecracker-lr_serving-0A.socket /tmp/lr_serving-0A.json",
            "finish",
        ]
    );
}

#[test]
fn nothing_is_removed_unless_asked_for() {
    let seen = run(false, 0);
    assert_eq!(seen.len(), 13);
    assert_eq!(seen[11], "kill");
    assert_eq!(seen[12], "finish");
}

#[test]
fn refused_connections_are_tried_again_after_a_pause() {
    let seen = run(false, 2);
    let connects = seen.iter().filter(|w| w.starts_with("connect")).count();
    let sleeps = seen.iter().filter(|w| *w == "sleep").count();
    assert_eq!(connects, 6);
    assert_eq!(sleeps, 5);
}

#[test]
fn requests_carry_what_the_control_socket_expects() {
    let mut rng = StdRng::seed_from_u64(7);
    let mut task = SnapshotTask::new(1, cmd(false));
    let mut action = task.step(TaskEvent::Started, &mut rng);
    let mut bodies = Vec::new();
    let mut config = String::new();
    loop {
        let event = match &action {
            TaskAction::Connect { .. } => TaskEvent::Connected,
            TaskAction::Sleep { millis } => {
                assert!((SETTLE_MIN_MS..SETTLE_END_MS).contains(millis));
                TaskEvent::Slept
            }
            TaskAction::Control { request, .. } => {
                bodies.push(request.body.clone());
                ok204()
            }
            TaskAction::WriteConfig { text, .. } => {
                config = text.clone();
                TaskEvent::Done
            }
            TaskAction::Finish => break,
            TaskAction::Fail(e) => panic!("unexpected failure {:?}", e),
            _ => TaskEvent::Done,
        };
        action = task.step(event, &mut rng);
    }
    assert_eq!(
        bodies,
        vec![
            r#"{"state":"Paused"}"#,
            r#"{"snapshot_path":"/store/snapshot-01.file","mem_file_path":"/store/memory-01.file","snapshot_type":"Full"}"#,
            r#"{"state":"Resumed"}"#,
        ]
    );
    assert_eq!(config, cmd(false).render_config(1).text);
}

#[test]
fn service_that_never_comes_up_times_out_after_240_attempts() {
    let mut rng = StdRng::seed_from_u64(7);
    let mut task = SnapshotTask::new(2, cmd(false));
    let mut action = task.step(TaskEvent::Started, &mut rng);
    let mut connects = 0;
    let mut slept = 0u64;
    let failure = loop {
        let event = match &action {
            TaskAction::Connect { address } => {
                assert_eq!(address, "10.0.2.2:50051");
                connects += 1;
                TaskEvent::Refused
            }
            TaskAction::Sleep { millis } => {
                assert!((400..600).contains(millis));
                slept += millis;
                TaskEvent::Slept
            }
            TaskAction::Fail(e) => break e.clone(),
            TaskAction::Finish => panic!("unexpected success"),
            _ => TaskEvent::Done,
        };
        action = task.step(event, &mut rng);
    };
    assert_eq!(connects, 240);
    assert!((96_000..144_000).contains(&slept));
    assert_eq!(
        failure,
        SnapshotError {
            id: 2,
            stage: Some(Stage::AwaitReady),
            cause: SnapshotCause::Timeout(TimeoutError { address: String::from("10.0.2.2:50051") }),
        }
    );
    assert_eq!(task.status(), Status::Failed);
}

#[test]
fn failure_of_any_stage_stops_the_task() {
    let stages = [
        Stage::ClearSocket,
        Stage::Truncate,
        Stage::WriteConfig,
        Stage::Spawn,
        Stage::Tick,
        Stage::Kill,
        Stage::Cleanup,
    ];
    for (nth, stage) in stages.iter().enumerate() {
        let mut rng = StdRng::seed_from_u64(7);
        let mut task = SnapshotTask::new(3, cmd(true));
        let mut action = task.step(TaskEvent::Started, &mut rng);
        let mut handled = 0;
        let failure = loop {
            let event = match &action {
                TaskAction::Connect { .. } => TaskEvent::Connected,
                TaskAction::Sleep { .. } => TaskEvent::Slept,
                TaskAction::Control { .. } => ok204(),
                TaskAction::Fail(e) => break e.clone(),
                TaskAction::Finish => panic!("unexpected success"),
                _ => {
                    handled += 1;
                    if handled > nth {
                        TaskEvent::Failed
                    } else {
                        TaskEvent::Done
                    }
                }
            };
            action = task.step(event, &mut rng);
        };
        assert_eq!(failure, SnapshotError { id: 3, stage: Some(*stage), cause: SnapshotCause::Io });
    }
}

#[test]
fn refused_control_request_carries_the_status() {
    let cases = [
        (0, Stage::Pause, Operation::Pause),
        (1, Stage::Snapshot, Operation::CreateSnapshot),
        (2, Stage::Resume, Operation::Resume),
    ];
    for (good, stage, operation) in cases {
        let mut rng = StdRng::seed_from_u64(7);
        let mut task = SnapshotTask::new(4, cmd(false));
        let mut action = task.step(TaskEvent::Started, &mut rng);
        let mut requests = 0;
        let failure = loop {
            let event = match &action {
                TaskAction::Connect { .. } => TaskEvent::Connected,
                TaskAction::Sleep { .. } => TaskEvent::Slept,
                TaskAction::Control { .. } => {
                    requests += 1;
                    if requests > good {
                        TaskEvent::Controlled(ControlOutcome::Replied {
                            status: 500,
                            elapsed: Delay::zero(),
                        })
                    } else {
                        ok204()
                    }
                }
                TaskAction::Fail(e) => break e.clone(),
                TaskAction::Finish => panic!("unexpected success"),
                _ => TaskEvent::Done,
            };
            action = task.step(event, &mut rng);
        };
        assert_eq!(
            failure,
            SnapshotError {
                id: 4,
                stage: Some(stage),
                cause: SnapshotCause::ControlPlane(ControlPlaneError {
                    socket: String::from("/tmp/firecracker-lr_serving-04.socket"),
                    operation,
                    status: Some(500),
                }),
            }
        );
    }
}

#[test]
fn task_event_out_of_turn_stops_the_task() {
    let mut rng = StdRng::seed_from_u64(7);
    let mut task = SnapshotTask::new(5, cmd(false));
    assert_eq!(
        task.step(TaskEvent::Done, &mut rng),
        TaskAction::Fail(SnapshotError { id: 5, stage: None, cause: SnapshotCause::OutOfTurn })
    );
    let mut task = SnapshotTask::new(5, cmd(false));
    task.step(TaskEvent::Started, &mut rng);
    assert_eq!(
        task.step(TaskEvent::Connected, &mut rng),
        TaskAction::Fail(SnapshotError {
            id: 5,
            stage: Some(Stage::ClearSocket),
            cause: SnapshotCause::OutOfTurn,
        })
    );
    assert_eq!(
        task.step(TaskEvent::Done, &mut rng),
        TaskAction::Fail(SnapshotError { id: 5, stage: None, cause: SnapshotCause::OutOfTurn })
    );
}

#[test]
fn one_failed_task_fails_the_fleet() {
    let first = SnapshotError { id: 1, stage: Some(Stage::Spawn), cause: SnapshotCause::Io };
    let second = SnapshotError { id: 2, stage: Some(Stage::Kill), cause: SnapshotCause::Io };
    assert_eq!(gather(vec![Ok(()), Ok(())]), Ok(()));
    assert_eq!(gather(vec![]), Ok(()));
    assert_eq!(gather(vec![Ok(()), Err(first.clone()), Err(second)]), Err(first));
}
