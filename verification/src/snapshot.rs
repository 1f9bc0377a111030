//! Making the snapshot of one sandbox: start the hypervisor, wait for the
//! service inside, pause, snapshot, resume, wait again, and tear down.
//!
//! The task decides what comes next; its caller touches the files, the
//! process and the sockets, and reports back. Tasks of different sandboxes
//! share nothing and never wait for one another.

use crate::control::{
    create_snapshot_body, pause_body, resume_body, ControlOutcome, ControlPlaneError,
    ControlRequest, Operation,
};
use crate::jitter::uniform;
use crate::layout::{
    address, config_file, config_path, config_text, instance_name, launch_args, log_path,
    memory_path, metrics_path, record_files, rootfs_path, snapshot_path, socket, socket_path,
    vm_address, Cmd,
};
use crate::liveness::{
    LivenessPoller, PollerState, ProbeAction, ProbeEvent, TimeoutError, BACKOFF_END_MS,
    BACKOFF_MIN_MS,
};
use crate::worker::Status;
use rand::rngs::StdRng;
use vstd::prelude::*;

verus! {

/// The shortest pause between the service coming up and the sandbox being
/// paused, in milliseconds.
pub const SETTLE_MIN_MS: u64 = 300;

/// The bound that the pause before pausing the sandbox stays below, in
/// milliseconds.
pub const SETTLE_END_MS: u64 = 750;

/// One stage of making a snapshot.
#[derive(Clone, Copy, Debug, PartialEq, Eq, Structural)]
pub enum Stage {
    /// Remove the control socket that an earlier run may have left.
    ClearSocket,
    /// Create the log and the metrics file, or empty them.
    Truncate,
    /// Write the sandbox's configuration.
    WriteConfig,
    /// Start the hypervisor.
    Spawn,
    /// Wait for the service inside the sandbox to come up.
    AwaitReady,
    /// Give the service a short while to settle.
    Settle,
    /// Pause the sandbox.
    Pause,
    /// Write the snapshot.
    Snapshot,
    /// Resume the sandbox.
    Resume,
    /// Wait for the service to answer again.
    AwaitResumed,
    /// Count the sandbox as done.
    Tick,
    /// Kill the hypervisor and reap it.
    Kill,
    /// Remove the control socket and the configuration.
    Cleanup,
}

/// What happened to the last thing a task asked for.
#[derive(Clone, Copy, Debug, PartialEq, Eq, Structural)]
pub enum TaskEvent {
    /// The task is to begin.
    Started,
    /// What was asked of the files or the process was done.
    Done,
    /// What was asked of the files or the process failed.
    Failed,
    /// The connection to the service was made.
    Connected,
    /// The connection to the service was refused.
    Refused,
    /// The pause is over.
    Slept,
    /// The control request ended.
    Controlled(ControlOutcome),
}

/// Why a task stopped.
#[derive(Clone, Debug, PartialEq, Eq)]
pub enum SnapshotCause {
    /// A file or the process could not be handled.
    Io,
    /// The service did not come up in time.
    Timeout(TimeoutError),
    /// A control request did not end in status 204.
    ControlPlane(ControlPlaneError),
    /// The event is not the answer to what the task asked for.
    OutOfTurn,
}

/// The failure of one task.
#[derive(Clone, Debug, PartialEq, Eq)]
pub struct SnapshotError {
    /// The sandbox that the task was bound to.
    pub id: u64,
    /// The stage that failed, where the task was at one.
    pub stage: Option<Stage>,
    pub cause: SnapshotCause,
}

/// What a task asks for next.
#[derive(Clone, Debug, PartialEq, Eq)]
pub enum TaskAction {
    /// Remove the socket at this path, if there is one.
    RemoveStale { socket: String },
    /// Create the two files, or empty them.
    Truncate { log: String, metrics: String },
    /// Write the configuration to the file at `path`.
    WriteConfig { path: String, text: String },
    /// Start the hypervisor, with no input and no output.
    Spawn { program: String, args: Vec<String> },
    /// Try to connect to the service, and drop the connection.
    Connect { address: String },
    /// Pause for so many milliseconds.
    Sleep { millis: u64 },
    /// Send a request to the sandbox's control socket.
    Control { socket: String, request: ControlRequest },
    /// Advance the count of sandboxes that are done.
    Tick,
    /// Kill the hypervisor and reap it.
    Kill,
    /// Remove the control socket and the configuration file.
    Remove { socket: String, config: String },
    /// Stop: the snapshot is made.
    Finish,
    /// Stop: the task has failed.
    Fail(SnapshotError),
}

impl Stage {
    /// Whether the stage is a wait for the service.
    pub open spec fn polls(self) -> bool {
        self is AwaitReady || self is AwaitResumed
    }

    /// Whether the stage asks something of the files, the process or the
    /// count, which is either done or fails.
    pub open spec fn handles(self) -> bool {
        self is ClearSocket || self is Truncate || self is WriteConfig || self is Spawn
            || self is Tick || self is Kill || self is Cleanup
    }

    /// The operation of a stage that sends a control request.
    pub open spec fn operation(self) -> Option<Operation> {
        match self {
            Stage::Pause => Some(Operation::Pause),
            Stage::Snapshot => Some(Operation::CreateSnapshot),
            Stage::Resume => Some(Operation::Resume),
            _ => None,
        }
    }
}

/// The stages of a task, in order; the last one only where cleaning up was
/// asked for.
pub open spec fn stages(cleanup: bool) -> Seq<Stage> {
    let always = seq![
        Stage::ClearSocket,
        Stage::Truncate,
        Stage::WriteConfig,
        Stage::Spawn,
        Stage::AwaitReady,
        Stage::Settle,
        Stage::Pause,
        Stage::Snapshot,
        Stage::Resume,
        Stage::AwaitResumed,
        Stage::Tick,
        Stage::Kill,
    ];
    if cleanup {
        always.push(Stage::Cleanup)
    } else {
        always
    }
}

/// What an event means to a poller, if anything.
pub open spec fn probe_event(event: TaskEvent) -> Option<ProbeEvent> {
    match event {
        TaskEvent::Connected => Some(ProbeEvent::Connected),
        TaskEvent::Refused => Some(ProbeEvent::Refused),
        TaskEvent::Slept => Some(ProbeEvent::Slept),
        _ => None,
    }
}

/// The pause that an action asks for, in milliseconds; zero where it asks
/// for none.
pub open spec fn pause_of(action: TaskAction) -> nat {
    match action {
        TaskAction::Sleep { millis } => millis as nat,
        _ => 0,
    }
}

/// A task as specifications see it.
pub struct TaskView {
    /// The sandbox that the task is bound to.
    pub id: u64,
    /// The settings of the run.
    pub args: Cmd,
    pub status: Status,
    /// The number of stages that are done.
    pub position: nat,
    /// The poller of the wait under way, if the task is at one.
    pub poller: PollerState,
}

impl TaskView {
    /// The stages that the task goes through.
    pub open spec fn stages(self) -> Seq<Stage> {
        stages(self.args.cleanup)
    }

    /// The stage that the task is at. Meant for a running task.
    pub open spec fn stage(self) -> Stage {
        self.stages()[self.position as int]
    }

    /// The path of the sandbox's control socket.
    pub open spec fn socket(self) -> Seq<char> {
        socket_path(self.args.bench@, self.id as nat)
    }

    /// Whether the position fits the status, and the poller is in a state
    /// that a poller reaches.
    pub open spec fn sound(self) -> bool {
        &&& self.position <= self.stages().len()
        &&& self.status is Fresh ==> self.position == 0
        &&& self.status is Running ==> self.position < self.stages().len()
        &&& self.status is Done ==> self.position == self.stages().len()
        &&& self.poller.valid()
    }

    /// What holds of every state that a task reaches: it is sound, and
    /// while the task waits for the service its poller is under way.
    pub open spec fn valid(self) -> bool {
        &&& self.sound()
        &&& self.status is Running && self.stage().polls() ==> self.poller.phase is Connecting
            || self.poller.phase is Sleeping
    }

    /// Whether `event` reports that the stage the task is at, which is no
    /// wait for the service, went well.
    pub open spec fn accepts(self, event: TaskEvent) -> bool {
        match event {
            TaskEvent::Done => self.stage().handles(),
            TaskEvent::Slept => self.stage() is Settle,
            TaskEvent::Controlled(outcome) => self.stage().operation() is Some
                && outcome.succeeded(),
            _ => false,
        }
    }

    /// Whether `event` is one that the poller of the wait under way
    /// expects.
    pub open spec fn polled(self, event: TaskEvent) -> bool {
        probe_event(event) matches Some(e) && self.poller.expects(e)
    }

    /// The state on arriving at `position`. Past the last stage the task is
    /// done. At a wait for the service a new poller is started.
    pub open spec fn arrive(self, position: nat) -> TaskView {
        if position >= self.stages().len() {
            TaskView { status: Status::Done, position, ..self }
        } else {
            TaskView {
                status: Status::Running,
                position,
                poller: if self.stages()[position as int].polls() {
                    PollerState::fresh().after(ProbeEvent::Started, 0)
                } else {
                    self.poller
                },
                ..self
            }
        }
    }

    /// The state after `event`, where `pause` is the pause drawn on the
    /// way. A task that is done or has failed stays as it is.
    pub open spec fn after(self, event: TaskEvent, pause: nat) -> TaskView {
        match self.status {
            Status::Fresh => if event is Started {
                self.arrive(0)
            } else {
                TaskView { status: Status::Failed, ..self }
            },
            Status::Running => if self.stage().polls() {
                if self.polled(event) {
                    let poller = self.poller.after(probe_event(event)->0, pause);
                    if poller.phase is Live {
                        TaskView { poller, ..self }.arrive(self.position + 1)
                    } else if poller.phase is TimedOut {
                        TaskView { status: Status::Failed, poller, ..self }
                    } else {
                        TaskView { poller, ..self }
                    }
                } else {
                    TaskView { status: Status::Failed, ..self }
                }
            } else if self.accepts(event) {
                self.arrive(self.position + 1)
            } else {
                TaskView { status: Status::Failed, ..self }
            },
            Status::Done | Status::Failed => self,
        }
    }

    /// Whether `request` is the control request of the stage the task is
    /// at.
    pub open spec fn sends(self, request: ControlRequest) -> bool {
        match self.stage() {
            Stage::Pause => request.carries(Operation::Pause, pause_body()),
            Stage::Snapshot => request.carries(
                Operation::CreateSnapshot,
                create_snapshot_body(
                    snapshot_path(self.args.store_path@, self.id as nat),
                    memory_path(self.args.store_path@, self.id as nat),
                ),
            ),
            Stage::Resume => request.carries(Operation::Resume, resume_body()),
            _ => false,
        }
    }

    /// The configuration of the task's sandbox.
    pub open spec fn config(self) -> Seq<char> {
        config_text(
            self.args.kernel_image_path@,
            rootfs_path(self.args.rootfs_dir@, self.args.bench@, self.id as nat),
            self.args.vm_mem as nat,
            self.args.vcpu_count as nat,
            log_path(self.args.store_path@, self.args.bench@, self.id as nat),
            metrics_path(self.args.store_path@, self.args.bench@, self.id as nat),
            self.id as nat,
        )
    }

    /// The arguments that the hypervisor is started with.
    pub open spec fn launch(self) -> Seq<Seq<char>> {
        launch_args(
            instance_name(self.args.bench@, self.id as nat),
            config_path(self.args.bench@, self.id as nat),
            self.socket(),
        )
    }

    /// Whether `action` is what a task in this state asks for.
    pub open spec fn asks(self, action: TaskAction) -> bool {
        match self.status {
            Status::Fresh => false,
            Status::Failed => action is Fail,
            Status::Done => action is Finish,
            Status::Running => match self.stage() {
                Stage::ClearSocket => action matches TaskAction::RemoveStale { socket } && socket@
                    == self.socket(),
                Stage::Truncate => action matches TaskAction::Truncate { log, metrics } && log@
                    == log_path(self.args.store_path@, self.args.bench@, self.id as nat)
                    && metrics@ == metrics_path(
                    self.args.store_path@,
                    self.args.bench@,
                    self.id as nat,
                ),
                Stage::WriteConfig => action matches TaskAction::WriteConfig { path, text }
                    && path@ == config_path(self.args.bench@, self.id as nat) && text@
                    == self.config(),
                Stage::Spawn => action matches TaskAction::Spawn { program, args } && program@
                    == self.args.fc_bin@ && args@.len() == self.launch().len() && forall|i: int|
                    0 <= i < args@.len() ==> (#[trigger] args@[i])@ == self.launch()[i],
                Stage::AwaitReady | Stage::AwaitResumed => if self.poller.phase is Connecting {
                    action matches TaskAction::Connect { address } && address@ == vm_address(
                        self.id as nat,
                    )
                } else {
                    action matches TaskAction::Sleep { millis } && BACKOFF_MIN_MS <= millis
                        < BACKOFF_END_MS
                },
                Stage::Settle => action matches TaskAction::Sleep { millis } && SETTLE_MIN_MS
                    <= millis < SETTLE_END_MS,
                Stage::Pause | Stage::Snapshot | Stage::Resume => action matches TaskAction::Control {
                    socket,
                    request,
                } && socket@ == self.socket() && self.sends(request),
                Stage::Tick => action is Tick,
                Stage::Kill => action is Kill,
                Stage::Cleanup => action matches TaskAction::Remove { socket, config } && socket@
                    == self.socket() && config@ == config_path(self.args.bench@, self.id as nat),
            },
        }
    }

    /// Whether `cause` is why `event` stopped the task at the stage it is
    /// at.
    pub open spec fn stopped_by(self, event: TaskEvent, cause: SnapshotCause) -> bool {
        if self.stage().polls() {
            if self.polled(event) {
                cause matches SnapshotCause::Timeout(t) && t.address@ == vm_address(self.id as nat)
            } else {
                cause is OutOfTurn
            }
        } else {
            match event {
                TaskEvent::Failed => if self.stage().handles() {
                    cause is Io
                } else {
                    cause is OutOfTurn
                },
                TaskEvent::Controlled(outcome) => match self.stage().operation() {
                    Some(operation) => cause matches SnapshotCause::ControlPlane(e)
                        && outcome.fails_with(self.socket(), operation, e),
                    None => cause is OutOfTurn,
                },
                _ => cause is OutOfTurn,
            }
        }
    }

    /// Whether `e` is the failure that `event` brings on a task in this
    /// state. An event that reaches a task not yet started, done or failed
    /// is out of turn.
    pub open spec fn blames(self, event: TaskEvent, e: SnapshotError) -> bool {
        &&& e.id == self.id
        &&& match self.status {
            Status::Running => e.stage == Some(self.stage()) && self.stopped_by(event, e.cause),
            _ => e.stage is None && e.cause is OutOfTurn,
        }
    }
}

/// A task times out only after 240 failed attempts to connect, with pauses
/// that add up to at least 96 and less than 144 seconds.
pub proof fn lemma_task_timeout_budget(task: TaskView, event: TaskEvent, pause: nat)
    requires
        task.valid(),
        task.status is Running,
        task.stage().polls(),
        task.polled(event),
        BACKOFF_MIN_MS <= pause < BACKOFF_END_MS,
        task.after(event, pause).status is Failed,
    ensures
        task.after(event, pause).poller.failures == 240,
        96_000 <= task.after(event, pause).poller.slept_ms < 144_000,
{
    crate::liveness::lemma_valid_is_kept(task.poller, probe_event(event)->0, pause);
}

/// The stage at `position`.
fn stage_at(cleanup: bool, position: usize) -> (s: Stage)
    requires
        position < stages(cleanup).len(),
    ensures
        s == stages(cleanup)[position as int],
{
    match position {
        0 => Stage::ClearSocket,
        1 => Stage::Truncate,
        2 => Stage::WriteConfig,
        3 => Stage::Spawn,
        4 => Stage::AwaitReady,
        5 => Stage::Settle,
        6 => Stage::Pause,
        7 => Stage::Snapshot,
        8 => Stage::Resume,
        9 => Stage::AwaitResumed,
        10 => Stage::Tick,
        11 => Stage::Kill,
        _ => Stage::Cleanup,
    }
}

/// The number of stages.
fn stage_count(cleanup: bool) -> (n: usize)
    ensures
        n == stages(cleanup).len(),
{
    if cleanup {
        13
    } else {
        12
    }
}

/// The task that makes the snapshot of one sandbox.
pub struct SnapshotTask {
    id: u64,
    args: Cmd,
    status: Status,
    position: usize,
    poller: LivenessPoller,
}

impl View for SnapshotTask {
    type V = TaskView;

    closed spec fn view(&self) -> TaskView {
        TaskView {
            id: self.id,
            args: self.args,
            status: self.status,
            position: self.position as nat,
            poller: self.poller@,
        }
    }
}

impl SnapshotTask {
    /// Whether the task is in a state that it can reach.
    pub open spec fn wf(&self) -> bool {
        self@.valid()
    }

    /// The task for sandbox `id` of a run with the settings `args`.
    pub fn new(id: u64, args: Cmd) -> (t: SnapshotTask)
        ensures
            t.wf(),
            t@ == (TaskView {
                id,
                args,
                status: Status::Fresh,
                position: 0,
                poller: PollerState::fresh(),
            }),
    {
        SnapshotTask { id, args, status: Status::Fresh, position: 0, poller: LivenessPoller::new() }
    }

    /// Where the task stands.
    pub fn status(&self) -> (s: Status)
        ensures
            s == self@.status,
    {
        self.status
    }

    /// Stops the task at the stage it is at.
    fn fail(&mut self, stage: Option<Stage>, cause: SnapshotCause) -> (action: TaskAction)
        requires
            old(self)@.sound(),
        ensures
            final(self)@ == (TaskView { status: Status::Failed, ..old(self)@ }),
            final(self).wf(),
            action matches TaskAction::Fail(e) && e.id == old(self)@.id && e.stage == stage
                && e.cause == cause,
    {
        self.status = Status::Failed;
        TaskAction::Fail(SnapshotError { id: self.id, stage, cause })
    }

    /// Moves the task to `position`, and says what it asks for there.
    fn arrive(&mut self, position: usize, rng: &mut StdRng) -> (action: TaskAction)
        requires
            old(self)@.sound(),
            position <= old(self)@.stages().len(),
        ensures
            final(self)@ == old(self)@.arrive(position as nat),
            final(self).wf(),
            final(self)@.asks(action),
            !(action is Fail),
    {
        self.position = position;
        if position >= stage_count(self.args.cleanup) {
            self.status = Status::Done;
            return TaskAction::Finish;
        }
        self.status = Status::Running;
        let bench = self.args.bench.as_str();
        match stage_at(self.args.cleanup, position) {
            Stage::ClearSocket => TaskAction::RemoveStale { socket: socket(bench, self.id) },
            Stage::Truncate => {
                let files = record_files(self.id, bench, self.args.store_path.as_str());
                TaskAction::Truncate { log: files.0, metrics: files.1 }
            },
            Stage::WriteConfig => {
                let config = self.args.render_config(self.id);
                TaskAction::WriteConfig { path: config.path, text: config.text }
            },
            Stage::Spawn => TaskAction::Spawn {
                program: self.args.fc_bin.clone(),
                args: self.args.launch(self.id),
            },
            Stage::AwaitReady | Stage::AwaitResumed => {
                self.poller = LivenessPoller::new();
                let _ = self.poller.step(ProbeEvent::Started, rng);
                TaskAction::Connect { address: address(self.id) }
            },
            Stage::Settle => TaskAction::Sleep {
                millis: uniform(rng, SETTLE_MIN_MS, SETTLE_END_MS),
            },
            Stage::Pause => TaskAction::Control {
                socket: socket(bench, self.id),
                request: ControlRequest::pause(),
            },
            Stage::Snapshot => TaskAction::Control {
                socket: socket(bench, self.id),
                request: self.args.create_snapshot(self.id),
            },
            Stage::Resume => TaskAction::Control {
                socket: socket(bench, self.id),
                request: ControlRequest::resume(),
            },
            Stage::Tick => TaskAction::Tick,
            Stage::Kill => TaskAction::Kill,
            Stage::Cleanup => TaskAction::Remove {
                socket: socket(bench, self.id),
                config: config_file(bench, self.id),
            },
        }
    }

    /// Hands `event` to the poller of the wait under way, and says what
    /// the task asks for next.
    fn poll(&mut self, stage: Stage, event: TaskEvent, rng: &mut StdRng) -> (action: TaskAction)
        requires
            old(self).wf(),
            old(self)@.status is Running,
            stage == old(self)@.stage(),
            stage.polls(),
        ensures
            final(self).wf(),
            final(self)@ == old(self)@.after(event, pause_of(action)),
            final(self)@.asks(action),
            action matches TaskAction::Fail(e) ==> old(self)@.blames(event, e),
    {
        let probe = match event {
            TaskEvent::Connected => ProbeEvent::Connected,
            TaskEvent::Refused => ProbeEvent::Refused,
            TaskEvent::Slept => ProbeEvent::Slept,
            _ => {
                return self.fail(Some(stage), SnapshotCause::OutOfTurn);
            },
        };
        match self.poller.step(probe, rng) {
            Some(ProbeAction::Connect) => TaskAction::Connect { address: address(self.id) },
            Some(ProbeAction::Sleep { millis }) => TaskAction::Sleep { millis },
            Some(ProbeAction::Live) => self.arrive(self.position + 1, rng),
            Some(ProbeAction::TimedOut) => self.fail(
                Some(stage),
                SnapshotCause::Timeout(TimeoutError { address: address(self.id) }),
            ),
            None => self.fail(Some(stage), SnapshotCause::OutOfTurn),
        }
    }

    /// What the stage that the task is at, which is no wait for the
    /// service, makes of `event`.
    fn take(&self, stage: Stage, event: TaskEvent) -> (r: Result<(), SnapshotCause>)
        requires
            self.wf(),
            self@.status is Running,
            stage == self@.stage(),
            !stage.polls(),
        ensures
            r is Ok <==> self@.accepts(event),
            r matches Err(cause) ==> self@.stopped_by(event, cause),
    {
        match event {
            TaskEvent::Done => match stage {
                Stage::ClearSocket
                | Stage::Truncate
                | Stage::WriteConfig
                | Stage::Spawn
                | Stage::Tick
                | Stage::Kill
                | Stage::Cleanup => Ok(()),
                _ => Err(SnapshotCause::OutOfTurn),
            },
            TaskEvent::Failed => match stage {
                Stage::ClearSocket
                | Stage::Truncate
                | Stage::WriteConfig
                | Stage::Spawn
                | Stage::Tick
                | Stage::Kill
                | Stage::Cleanup => Err(SnapshotCause::Io),
                _ => Err(SnapshotCause::OutOfTurn),
            },
            TaskEvent::Slept => match stage {
                Stage::Settle => Ok(()),
                _ => Err(SnapshotCause::OutOfTurn),
            },
            TaskEvent::Controlled(outcome) => {
                let operation = match stage {
                    Stage::Pause => Operation::Pause,
                    Stage::Snapshot => Operation::CreateSnapshot,
                    Stage::Resume => Operation::Resume,
                    _ => {
                        return Err(SnapshotCause::OutOfTurn);
                    },
                };
                let path = socket(self.args.bench.as_str(), self.id);
                match outcome.settle(path.as_str(), operation) {
                    Ok(_) => Ok(()),
                    Err(e) => Err(SnapshotCause::ControlPlane(e)),
                }
            },
            _ => Err(SnapshotCause::OutOfTurn),
        }
    }

    /// Takes in what happened to the last thing asked for, and says what to
    /// do next.
    ///
    /// A fresh task starts on `Started`. A running task moves to the next
    /// stage where the event reports that the stage it is at went well;
    /// past the last stage it is finished. While it waits for the service
    /// it asks for one attempt to connect after the other, with a pause of
    /// at least 400 and less than 600 milliseconds after each that fails,
    /// and gives up after the 240th. Any other event stops it. A task that
    /// is done or has failed answers every event with a failure and stays
    /// as it is.
    pub fn step(&mut self, event: TaskEvent, rng: &mut StdRng) -> (action: TaskAction)
        requires
            old(self).wf(),
        ensures
            final(self).wf(),
            final(self)@ == old(self)@.after(event, pause_of(action)),
            old(self)@.status is Fresh || old(self)@.status is Running ==> final(self)@.asks(action),
            old(self)@.status is Done || old(self)@.status is Failed ==> action is Fail,
            action matches TaskAction::Fail(e) ==> old(self)@.blames(event, e),
    {
        match self.status {
            Status::Fresh => {
                match event {
                    TaskEvent::Started => self.arrive(0, rng),
                    _ => self.fail(None, SnapshotCause::OutOfTurn),
                }
            },
            Status::Running => {
                let stage = stage_at(self.args.cleanup, self.position);
                match stage {
                    Stage::AwaitReady | Stage::AwaitResumed => self.poll(stage, event, rng),
                    _ => match self.take(stage, event) {
                        Ok(()) => self.arrive(self.position + 1, rng),
                        Err(cause) => self.fail(Some(stage), cause),
                    },
                }
            },
            Status::Done | Status::Failed => TaskAction::Fail(
                SnapshotError { id: self.id, stage: None, cause: SnapshotCause::OutOfTurn },
            ),
        }
    }
}

/// The outcome of a fleet of tasks: the first failure among them, if there
/// is one. Snapshots that were made stay, whatever became of the others.
pub fn gather(outcomes: Vec<Result<(), SnapshotError>>) -> (r: Result<(), SnapshotError>)
    ensures
        r is Ok <==> forall|k: int| 0 <= k < outcomes.len() ==> (#[trigger] outcomes[k]) is Ok,
        r matches Err(e) ==> exists|at: int|
            {
                &&& 0 <= at < outcomes.len()
                &&& #[trigger] outcomes[at] == Err::<(), SnapshotError>(e)
                &&& forall|k: int| 0 <= k < at ==> (#[trigger] outcomes[k]) is Ok
            },
{
    let mut k: usize = 0;
    while k < outcomes.len()
        invariant
            k <= outcomes.len(),
            forall|j: int| 0 <= j < k ==> (#[trigger] outcomes[j]) is Ok,
        decreases outcomes.len() - k,
    {
        if outcomes[k].is_err() {
            let mut taken = outcomes;
            let failed = taken.swap_remove(k);
            assert(failed == outcomes[k as int]);
            return failed;
        }
        k = k + 1;
    }
    Ok(())
}

} // verus!
