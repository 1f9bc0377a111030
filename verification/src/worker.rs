//! The worker: what one task does with one sandbox, step by step.
//!
//! A worker follows a fixed plan. Plain runs wait for the fleet, issue the
//! cold request, issue the pre-warm requests with a random pause after each,
//! and issue the warm request; runs from a snapshot first check the
//! sandbox's files, then restore and resume it. The fleet meets at a
//! rendezvous between any two phases. The worker decides what comes next;
//! its caller carries it out and reports back with the time on its clock.

use crate::bench::{reply_delays, BenchCmd, BenchError, Invocation, Reply};
use crate::control::{
    restore_body, resume_body, ControlOutcome, ControlPlaneError, ControlRequest, Operation,
};
use crate::delay::{Delay, Delays, Measurement};
use crate::jitter::uniform;
use crate::sandbox::{sandbox_path, PathKinds, RestoreCmd, SandboxPaths, ValidationError};
use rand::rngs::StdRng;
use vstd::prelude::*;

verus! {

/// The shortest pause after a pre-warm request, in milliseconds.
pub const JITTER_MIN_MS: u64 = 20;

/// The bound that every pause after a pre-warm request stays below, in
/// milliseconds.
pub const JITTER_END_MS: u64 = 120;

/// One step of a worker's plan.
#[derive(Clone, Copy, Debug, PartialEq, Eq, Structural)]
pub enum Step {
    /// Check the sandbox's control socket and snapshot files.
    Validate,
    /// Wait until every worker of the fleet has come this far.
    Rendezvous,
    /// Load the sandbox's state from its snapshot.
    Restore,
    /// Resume the restored sandbox.
    Resume,
    /// Issue the cold request.
    ColdCall,
    /// Issue one pre-warm request.
    PreWarmCall,
    /// Pause for a random while after a pre-warm request.
    Jitter,
    /// Issue the warm request.
    WarmCall,
}

/// Where a worker stands.
#[derive(Clone, Copy, Debug, PartialEq, Eq, Structural)]
pub enum Status {
    /// Not started.
    Fresh,
    /// Waiting for the answer to its last action.
    Running,
    /// Through with its plan; the measurement is complete.
    Done,
    /// Stopped by a failure.
    Failed,
}

/// What happened to the last thing a worker asked for.
#[derive(Clone, Copy, Debug, PartialEq, Eq, Structural)]
pub enum Event {
    /// The worker is to begin.
    Started,
    /// The sandbox's paths were examined.
    Probed(PathKinds),
    /// Every worker has reached the rendezvous.
    Released,
    /// The rendezvous was called off: another worker failed.
    Cancelled,
    /// The control request ended.
    Controlled(ControlOutcome),
    /// The benchmark call ended.
    Invoked(Reply),
    /// The pause is over.
    Slept,
}

/// Why a worker stopped.
#[derive(Clone, Debug, PartialEq, Eq)]
pub enum Cause {
    /// A path of the sandbox failed the check.
    Validation(ValidationError),
    /// A control request did not end in status 204.
    ControlPlane(ControlPlaneError),
    /// A benchmark call failed, or the benchmark is not implemented.
    Bench(BenchError),
    /// The rendezvous was called off.
    Cancelled,
    /// The event is not the answer to what the worker asked for.
    OutOfTurn,
}

/// The failure of one worker.
#[derive(Clone, Debug, PartialEq, Eq)]
pub struct WorkerError {
    /// The sandbox that the worker was bound to.
    pub id: usize,
    /// The step that failed, where the worker was at one.
    pub step: Option<Step>,
    pub cause: Cause,
}

/// What a worker asks for next.
#[derive(Clone, Debug, PartialEq, Eq)]
pub enum Action {
    /// Examine what stands at each of the sandbox's paths.
    Probe(SandboxPaths),
    /// Wait at the fleet's rendezvous.
    Rendezvous,
    /// Send a request to the sandbox's control socket, and time it.
    Control { socket: String, request: ControlRequest },
    /// Call the benchmark service, and time the call.
    Invoke(Invocation),
    /// Pause for so many milliseconds.
    Sleep { millis: u64 },
    /// Stop: the run is complete.
    Report { id: usize, measurement: Measurement },
    /// Stop: the run has failed.
    Fail(WorkerError),
}

impl Step {
    /// Whether the step is a call to the benchmark service.
    pub open spec fn is_call(self) -> bool {
        self is ColdCall || self is PreWarmCall || self is WarmCall
    }
}

/// The steps before the pre-warm rounds.
pub open spec fn prelude(restoring: bool) -> Seq<Step> {
    if restoring {
        seq![
            Step::Validate,
            Step::Rendezvous,
            Step::Restore,
            Step::Rendezvous,
            Step::Resume,
            Step::Rendezvous,
            Step::ColdCall,
            Step::Rendezvous,
        ]
    } else {
        seq![Step::Rendezvous, Step::ColdCall, Step::Rendezvous]
    }
}

/// The steps of `n` pre-warm rounds: each a request and a pause.
pub open spec fn rounds(n: nat) -> Seq<Step>
    decreases n,
{
    if n == 0 {
        Seq::empty()
    } else {
        rounds((n - 1) as nat) + seq![Step::PreWarmCall, Step::Jitter]
    }
}

/// The steps after the pre-warm rounds.
pub open spec fn finale() -> Seq<Step> {
    seq![Step::Rendezvous, Step::WarmCall, Step::Rendezvous]
}

/// The plan of a worker: all its steps, in order.
pub open spec fn plan(restoring: bool, pre_warm: nat) -> Seq<Step> {
    prelude(restoring) + rounds(pre_warm) + finale()
}

/// The number of times that `step` stands in `steps`.
pub open spec fn count(steps: Seq<Step>, step: Step) -> nat
    decreases steps.len(),
{
    if steps.len() == 0 {
        0
    } else {
        count(steps.drop_last(), step) + if steps.last() == step {
            1nat
        } else {
            0nat
        }
    }
}

/// Pre-warm rounds alternate between a request and a pause.
pub proof fn lemma_rounds(n: nat)
    ensures
        rounds(n).len() == 2 * n,
        forall|k: int|
            0 <= k < 2 * n ==> #[trigger] rounds(n)[k] == if k % 2 == 0 {
                Step::PreWarmCall
            } else {
                Step::Jitter
            },
    decreases n,
{
    if n > 0 {
        lemma_rounds((n - 1) as nat);
    }
}

/// Whatever the number of pre-warm rounds, a plan starts with its prelude
/// and ends with its finale, and all that lies between is pre-warm rounds:
/// the cold request comes before every pre-warm request, the warm request
/// after the last, and a rendezvous stands on either side of the rounds.
pub proof fn lemma_plan_shape(restoring: bool, pre_warm: nat)
    ensures
        plan(restoring, pre_warm).len() == prelude(restoring).len() + 2 * pre_warm + 3,
        forall|k: int|
            0 <= k < prelude(restoring).len() ==> #[trigger] plan(restoring, pre_warm)[k]
                == prelude(restoring)[k],
        forall|k: int|
            0 <= k < 2 * pre_warm ==> #[trigger] plan(restoring, pre_warm)[prelude(restoring).len()
                + k] == if k % 2 == 0 {
                Step::PreWarmCall
            } else {
                Step::Jitter
            },
        forall|k: int|
            0 <= k < 3 ==> #[trigger] plan(restoring, pre_warm)[prelude(restoring).len() + 2
                * pre_warm + k] == finale()[k],
{
    lemma_rounds(pre_warm);
    let lead = prelude(restoring).len() as int;
    assert forall|k: int| 0 <= k < 2 * pre_warm implies #[trigger] plan(restoring, pre_warm)[lead
        + k] == if k % 2 == 0 {
        Step::PreWarmCall
    } else {
        Step::Jitter
    } by {
        assert(plan(restoring, pre_warm)[lead + k] == rounds(pre_warm)[k]);
    }
}

/// A plain run has no step that touches a snapshot.
pub proof fn lemma_plain_plan(pre_warm: nat, k: int)
    requires
        0 <= k < plan(false, pre_warm).len(),
    ensures
        !(plan(false, pre_warm)[k] is Validate),
        !(plan(false, pre_warm)[k] is Restore),
        !(plan(false, pre_warm)[k] is Resume),
{
    lemma_rounds(pre_warm);
    if 3 <= k < 3 + 2 * pre_warm {
        assert(plan(false, pre_warm)[k] == rounds(pre_warm)[k - 3]);
    }
}

/// Counting over a concatenation adds up.
pub proof fn lemma_count_concat(a: Seq<Step>, b: Seq<Step>, step: Step)
    ensures
        count(a + b, step) == count(a, step) + count(b, step),
    decreases b.len(),
{
    if b.len() == 0 {
        assert(a + b =~= a);
    } else {
        assert((a + b).drop_last() =~= a + b.drop_last());
        lemma_count_concat(a, b.drop_last(), step);
    }
}

/// Pre-warm rounds hold no rendezvous.
pub proof fn lemma_rounds_hold_no_rendezvous(n: nat)
    ensures
        count(rounds(n), Step::Rendezvous) == 0,
    decreases n,
{
    if n > 0 {
        lemma_rounds_hold_no_rendezvous((n - 1) as nat);
        let tail = seq![Step::PreWarmCall, Step::Jitter];
        lemma_count_concat(rounds((n - 1) as nat), tail, Step::Rendezvous);
        reveal_with_fuel(count, 3);
        assert(tail.drop_last() =~= seq![Step::PreWarmCall]);
        assert(tail.drop_last().drop_last() =~= Seq::<Step>::empty());
    }
}

/// Every worker of a fleet waits at the rendezvous the same number of
/// times, however many pre-warm rounds there are: four times in a plain
/// run, six times in a run from a snapshot.
pub proof fn lemma_rendezvous_count(restoring: bool, pre_warm: nat)
    ensures
        count(plan(restoring, pre_warm), Step::Rendezvous) == if restoring {
            6nat
        } else {
            4nat
        },
{
    let r = Step::Rendezvous;
    lemma_rounds_hold_no_rendezvous(pre_warm);
    lemma_count_concat(prelude(restoring) + rounds(pre_warm), finale(), r);
    lemma_count_concat(prelude(restoring), rounds(pre_warm), r);
    assert(count(finale(), r) == 2) by {
        reveal_with_fuel(count, 4);
        assert(finale().drop_last() =~= seq![Step::Rendezvous, Step::WarmCall]);
        assert(finale().drop_last().drop_last() =~= seq![Step::Rendezvous]);
        assert(finale().drop_last().drop_last().drop_last() =~= Seq::<Step>::empty());
    }
    if restoring {
        let p0 = prelude(true);
        let p1 = p0.drop_last();
        let p2 = p1.drop_last();
        let p3 = p2.drop_last();
        let p4 = p3.drop_last();
        let p5 = p4.drop_last();
        let p6 = p5.drop_last();
        let p7 = p6.drop_last();
        let p8 = p7.drop_last();
        assert(p8 =~= Seq::<Step>::empty());
        assert(count(p8, r) == 0);
        assert(count(p7, r) == 0);
        assert(count(p6, r) == 1);
        assert(count(p5, r) == 1);
        assert(count(p4, r) == 2);
        assert(count(p3, r) == 2);
        assert(count(p2, r) == 3);
        assert(count(p1, r) == 3);
        assert(count(p0, r) == 4);
    } else {
        let p0 = prelude(false);
        let p1 = p0.drop_last();
        let p2 = p1.drop_last();
        let p3 = p2.drop_last();
        assert(p3 =~= Seq::<Step>::empty());
        assert(count(p3, r) == 0);
        assert(count(p2, r) == 1);
        assert(count(p1, r) == 1);
        assert(count(p0, r) == 2);
    }
}

/// A worker as specifications see it.
pub struct WorkerView {
    /// The sandbox that the worker is bound to.
    pub id: usize,
    /// The address of the sandbox's service.
    pub address: Seq<char>,
    /// The benchmark to run.
    pub bench: BenchCmd,
    /// The templates of the sandbox's paths, in a run from a snapshot.
    pub templates: Option<RestoreCmd>,
    /// The number of pre-warm rounds.
    pub pre_warm: nat,
    pub status: Status,
    /// The number of steps of the plan that are done.
    pub position: nat,
    /// The time at which the global timer was started.
    pub timer_start: Delay,
    /// What was measured so far; zero where nothing was.
    pub record: Measurement,
}

impl WorkerView {
    /// Whether the run restores the sandbox from a snapshot.
    pub open spec fn restoring(self) -> bool {
        self.templates is Some
    }

    /// The plan that the worker follows.
    pub open spec fn plan(self) -> Seq<Step> {
        plan(self.restoring(), self.pre_warm)
    }

    /// The step that the worker is at. Meant for a running worker.
    pub open spec fn step(self) -> Step {
        self.plan()[self.position as int]
    }

    /// What holds of every state that a worker reaches.
    pub open spec fn valid(self) -> bool {
        &&& self.position <= self.plan().len()
        &&& self.status is Fresh ==> self.position == 0
        &&& self.status is Running ==> self.position < self.plan().len()
        &&& self.status is Done ==> self.position == self.plan().len()
        &&& self.status is Running && self.step().is_call() ==> !(self.bench.call_shape()
            is NotImplemented)
        &&& self.templates matches Some(t) ==> t.bench == self.bench
        &&& !self.restoring() ==> self.record.plain()
    }

    /// Whether `event` reports that the step the worker is at went well.
    pub open spec fn accepts(self, event: Event) -> bool {
        match (self.step(), event) {
            (Step::Validate, Event::Probed(found)) => self.templates matches Some(t) && t.accepts(
                found,
            ),
            (Step::Rendezvous, Event::Released) => true,
            (Step::Restore, Event::Controlled(outcome)) => outcome.succeeded(),
            (Step::Resume, Event::Controlled(outcome)) => outcome.succeeded(),
            (Step::ColdCall, Event::Invoked(reply)) => reply is Answered,
            (Step::PreWarmCall, Event::Invoked(reply)) => reply is Answered,
            (Step::WarmCall, Event::Invoked(reply)) => reply is Answered,
            (Step::Jitter, Event::Slept) => true,
            _ => false,
        }
    }

    /// The measurement after `event`, received at time `at`, has reported
    /// that the step the worker is at went well. The global timer stops with
    /// the cold request; the answers to pre-warm requests leave no trace.
    pub open spec fn recorded(self, at: Delay, event: Event) -> Measurement {
        match (self.step(), event) {
            (
                Step::Restore,
                Event::Controlled(ControlOutcome::Replied { elapsed, .. }),
            ) => Measurement { restore: elapsed, ..self.record },
            (
                Step::Resume,
                Event::Controlled(ControlOutcome::Replied { elapsed, .. }),
            ) => Measurement { resume: elapsed, ..self.record },
            (
                Step::ColdCall,
                Event::Invoked(Reply::Answered { client, response }),
            ) => Measurement {
                global: span(self.timer_start, at),
                cold: reply_delays(client, response),
                ..self.record
            },
            (Step::WarmCall, Event::Invoked(Reply::Answered { client, response })) => Measurement {
                warm: reply_delays(client, response),
                ..self.record
            },
            _ => self.record,
        }
    }

    /// Whether the global timer starts with `step`: with the restore in a
    /// run from a snapshot, with the cold request in a plain run.
    pub open spec fn starts_timer(self, step: Step) -> bool {
        step is Restore || (step is ColdCall && !self.restoring())
    }

    /// The state on arriving at `position` at time `at`. Past the last step
    /// the worker is done. At a call of a benchmark that is not implemented
    /// it fails at once.
    pub open spec fn arrive(self, position: nat, at: Delay) -> WorkerView {
        if position >= self.plan().len() {
            WorkerView { status: Status::Done, position, ..self }
        } else if self.plan()[position as int].is_call() && self.bench.call_shape()
            is NotImplemented {
            WorkerView { status: Status::Failed, position, ..self }
        } else {
            WorkerView {
                status: Status::Running,
                position,
                timer_start: if self.starts_timer(self.plan()[position as int]) {
                    at
                } else {
                    self.timer_start
                },
                ..self
            }
        }
    }

    /// The state after `event`, received at time `at`. A worker that is done
    /// or has failed stays as it is.
    pub open spec fn after(self, at: Delay, event: Event) -> WorkerView {
        match self.status {
            Status::Fresh => if event is Started {
                self.arrive(0, at)
            } else {
                WorkerView { status: Status::Failed, ..self }
            },
            Status::Running => if self.accepts(event) {
                WorkerView { record: self.recorded(at, event), ..self }.arrive(
                    self.position + 1,
                    at,
                )
            } else {
                WorkerView { status: Status::Failed, ..self }
            },
            Status::Done | Status::Failed => self,
        }
    }

    /// The path of the sandbox's control socket. Meant for a run from a
    /// snapshot.
    pub open spec fn socket(self) -> Seq<char> {
        sandbox_path(self.templates->0.api_sock_path@, self.id as nat)
    }

    /// The path of the sandbox's state file. Meant for a run from a
    /// snapshot.
    pub open spec fn state_file(self) -> Seq<char> {
        sandbox_path(self.templates->0.state_file@, self.id as nat)
    }

    /// The path of the sandbox's memory file. Meant for a run from a
    /// snapshot.
    pub open spec fn memory_file(self) -> Seq<char> {
        sandbox_path(self.templates->0.memory_file@, self.id as nat)
    }

    /// Whether `action` is what a worker in this state asks for: what the
    /// step it is at calls for while it runs, and the report of its
    /// measurement once it is done.
    pub open spec fn asks(self, action: Action) -> bool {
        match self.status {
            Status::Fresh => false,
            Status::Failed => action is Fail,
            Status::Done => action matches Action::Report { id, measurement } && id == self.id
                && measurement == self.record,
            Status::Running => match self.step() {
                Step::Validate => action matches Action::Probe(paths) && self.templates->0.renders(
                    self.id as nat,
                    paths,
                ),
                Step::Rendezvous => action is Rendezvous,
                Step::Restore => action matches Action::Control { socket, request } && socket@
                    == self.socket() && request.carries(
                    Operation::Restore,
                    restore_body(self.state_file(), self.memory_file()),
                ),
                Step::Resume => action matches Action::Control { socket, request } && socket@
                    == self.socket() && request.carries(Operation::Resume, resume_body()),
                Step::ColdCall | Step::PreWarmCall | Step::WarmCall => action matches Action::Invoke(
                    call,
                ) && call.address@ == self.address && call.shape == self.bench.call_shape(),
                Step::Jitter => action matches Action::Sleep { millis } && JITTER_MIN_MS <= millis
                    < JITTER_END_MS,
            },
        }
    }

    /// Whether `cause` is why `event` stopped the worker at the step it is
    /// at.
    pub open spec fn stopped_by(self, event: Event, cause: Cause) -> bool {
        match (self.step(), event) {
            (Step::Validate, Event::Probed(found)) => cause matches Cause::Validation(e)
                && self.templates->0.rejects(self.id as nat, found, e),
            (Step::Rendezvous, Event::Cancelled) => cause is Cancelled,
            (Step::Restore, Event::Controlled(outcome)) => cause matches Cause::ControlPlane(e)
                && outcome.fails_with(self.socket(), Operation::Restore, e),
            (Step::Resume, Event::Controlled(outcome)) => cause matches Cause::ControlPlane(e)
                && outcome.fails_with(self.socket(), Operation::Resume, e),
            (Step::ColdCall, Event::Invoked(reply)) => cause == Cause::Bench(reply_error(reply)),
            (Step::PreWarmCall, Event::Invoked(reply)) => cause == Cause::Bench(reply_error(reply)),
            (Step::WarmCall, Event::Invoked(reply)) => cause == Cause::Bench(reply_error(reply)),
            _ => cause is OutOfTurn,
        }
    }

    /// Whether `e` is the failure that `event` brings on a worker in this
    /// state: the cause at the step it is at, or, where the event went well
    /// and the next step is a call of a benchmark that is not implemented,
    /// that at the next step. An event that reaches a worker not yet started,
    /// done or failed is out of turn.
    pub open spec fn blames(self, event: Event, e: WorkerError) -> bool {
        &&& e.id == self.id
        &&& match self.status {
            Status::Running => if self.accepts(event) {
                e.step == Some(self.plan()[self.position as int + 1]) && e.cause == Cause::Bench(
                    BenchError::NotImplemented,
                )
            } else {
                e.step == Some(self.step()) && self.stopped_by(event, e.cause)
            },
            _ => e.step is None && e.cause is OutOfTurn,
        }
    }
}

/// The time from `start` to `end`; zero where `start` is the later one.
pub open spec fn span(start: Delay, end: Delay) -> Delay {
    Delay {
        nanos: if end.nanos >= start.nanos {
            (end.nanos - start.nanos) as u128
        } else {
            0
        },
    }
}

/// The error of a call that was not answered.
pub open spec fn reply_error(reply: Reply) -> BenchError {
    match reply {
        Reply::Unreachable => BenchError::Connection,
        _ => BenchError::Rpc,
    }
}

/// The step at `position` of a plan.
fn step_at(restoring: bool, pre_warm: usize, position: u128) -> (s: Step)
    requires
        position < plan(restoring, pre_warm as nat).len(),
    ensures
        s == plan(restoring, pre_warm as nat)[position as int],
{
    proof {
        lemma_rounds(pre_warm as nat);
    }
    let lead: u128 = if restoring {
        8
    } else {
        3
    };
    let warmups: u128 = 2 * (pre_warm as u128);
    if position < lead {
        if restoring {
            match position {
                0 => Step::Validate,
                1 => Step::Rendezvous,
                2 => Step::Restore,
                3 => Step::Rendezvous,
                4 => Step::Resume,
                5 => Step::Rendezvous,
                6 => Step::ColdCall,
                _ => Step::Rendezvous,
            }
        } else {
            match position {
                0 => Step::Rendezvous,
                1 => Step::ColdCall,
                _ => Step::Rendezvous,
            }
        }
    } else if position - lead < warmups {
        if (position - lead) % 2 == 0 {
            Step::PreWarmCall
        } else {
            Step::Jitter
        }
    } else {
        match position - lead - warmups {
            0 => Step::Rendezvous,
            1 => Step::WarmCall,
            _ => Step::Rendezvous,
        }
    }
}

/// The number of steps of a plan.
fn plan_len(restoring: bool, pre_warm: usize) -> (n: u128)
    ensures
        n == plan(restoring, pre_warm as nat).len(),
{
    proof {
        lemma_rounds(pre_warm as nat);
    }
    let lead: u128 = if restoring {
        8
    } else {
        3
    };
    lead + 2 * (pre_warm as u128) + 3
}

/// The snapshot that a worker restores its sandbox from.
struct Snapshot {
    /// The templates of the paths.
    templates: RestoreCmd,
    /// The paths of the worker's sandbox.
    paths: SandboxPaths,
}

/// The worker bound to one sandbox.
pub struct Worker {
    id: usize,
    address: String,
    bench: BenchCmd,
    snapshot: Option<Snapshot>,
    pre_warm: usize,
    status: Status,
    position: u128,
    timer_start: Delay,
    record: Measurement,
}

impl View for Worker {
    type V = WorkerView;

    closed spec fn view(&self) -> WorkerView {
        WorkerView {
            id: self.id,
            address: self.address@,
            bench: self.bench,
            templates: match self.snapshot {
                Some(s) => Some(s.templates),
                None => None,
            },
            pre_warm: self.pre_warm as nat,
            status: self.status,
            position: self.position as nat,
            timer_start: self.timer_start,
            record: self.record,
        }
    }
}

impl Worker {
    /// Whether the worker is in a state that it can reach: its view is
    /// valid, and in a run from a snapshot it holds the sandbox's paths.
    pub closed spec fn wf(&self) -> bool {
        &&& self@.valid()
        &&& self.snapshot matches Some(s) ==> s.templates.renders(self.id as nat, s.paths)
    }

    /// The worker of a plain run against sandbox `id`, whose service is at
    /// `address`.
    pub fn issue(id: usize, address: String, bench: BenchCmd, pre_warm: usize) -> (w: Worker)
        ensures
            w.wf(),
            w@.status is Fresh,
            w@.id == id,
            w@.address == address@,
            w@.bench == bench,
            w@.templates is None,
            w@.pre_warm == pre_warm,
            w@.position == 0,
            w@.timer_start@ == 0,
            w@.record == Measurement::blank(),
    {
        let zero = Delays::new(Delay::zero(), Delay::zero());
        Worker {
            id,
            address,
            bench,
            snapshot: None,
            pre_warm,
            status: Status::Fresh,
            position: 0,
            timer_start: Delay::zero(),
            record: Measurement::from((Delay::zero(), zero, zero)),
        }
    }

    /// The worker of a run that first restores sandbox `id` from the
    /// snapshot that `rcmd` names, and then runs the benchmark of `rcmd`
    /// against the service at `address`.
    pub fn restore(id: usize, address: String, rcmd: RestoreCmd, pre_warm: usize) -> (w: Worker)
        ensures
            w.wf(),
            w@.status is Fresh,
            w@.id == id,
            w@.address == address@,
            w@.bench == rcmd.bench,
            w@.templates == Some(rcmd),
            w@.pre_warm == pre_warm,
            w@.position == 0,
            w@.timer_start@ == 0,
            w@.record == Measurement::blank(),
    {
        let zero = Delays::new(Delay::zero(), Delay::zero());
        let paths = rcmd.paths(id);
        Worker {
            id,
            address,
            bench: rcmd.bench,
            snapshot: Some(Snapshot { templates: rcmd, paths }),
            pre_warm,
            status: Status::Fresh,
            position: 0,
            timer_start: Delay::zero(),
            record: Measurement::from((Delay::zero(), zero, zero)),
        }
    }

    /// Where the worker stands.
    pub fn status(&self) -> (s: Status)
        ensures
            s == self@.status,
    {
        self.status
    }

    /// Stops the worker at the step it is at.
    fn fail(&mut self, step: Option<Step>, cause: Cause) -> (action: Action)
        requires
            old(self).wf(),
        ensures
            final(self)@ == (WorkerView { status: Status::Failed, ..old(self)@ }),
            final(self).wf(),
            action matches Action::Fail(e) && e.id == old(self)@.id && e.step == step && e.cause
                == cause,
    {
        self.status = Status::Failed;
        Action::Fail(WorkerError { id: self.id, step, cause })
    }

    /// Moves the worker to `position` at time `at`, and says what it asks
    /// for there.
    fn arrive(&mut self, position: u128, at: Delay, rng: &mut StdRng) -> (action: Action)
        requires
            old(self).wf(),
            !(old(self)@.status is Done),
            position <= old(self)@.plan().len(),
        ensures
            final(self)@ == old(self)@.arrive(position as nat, at),
            final(self).wf(),
            final(self)@.asks(action),
            action matches Action::Fail(e) ==> e.id == old(self)@.id && e.step == Some(
                old(self)@.plan()[position as int],
            ) && e.cause == Cause::Bench(BenchError::NotImplemented),
    {
        let restoring = self.snapshot.is_some();
        proof {
            lemma_rounds(self.pre_warm as nat);
        }
        self.position = position;
        if position >= plan_len(restoring, self.pre_warm) {
            self.status = Status::Done;
            return Action::Report { id: self.id, measurement: self.record };
        }
        let step = step_at(restoring, self.pre_warm, position);
        match step {
            Step::ColdCall | Step::PreWarmCall | Step::WarmCall => {
                match self.bench.issue(self.address.clone()) {
                    Ok(call) => {
                        self.status = Status::Running;
                        if !restoring && step == Step::ColdCall {
                            self.timer_start = at;
                        }
                        Action::Invoke(call)
                    },
                    Err(e) => {
                        self.status = Status::Failed;
                        Action::Fail(
                            WorkerError { id: self.id, step: Some(step), cause: Cause::Bench(e) },
                        )
                    },
                }
            },
            Step::Rendezvous => {
                self.status = Status::Running;
                Action::Rendezvous
            },
            Step::Jitter => {
                self.status = Status::Running;
                Action::Sleep { millis: uniform(rng, JITTER_MIN_MS, JITTER_END_MS) }
            },
            Step::Validate => {
                self.status = Status::Running;
                match &self.snapshot {
                    Some(s) => Action::Probe(s.templates.paths(self.id)),
                    None => vstd::pervasive::unreached(),
                }
            },
            Step::Restore => {
                self.status = Status::Running;
                self.timer_start = at;
                match &self.snapshot {
                    Some(s) => Action::Control {
                        socket: s.paths.api_sock_path.clone(),
                        request: ControlRequest::restore(
                            s.paths.state_file.as_str(),
                            s.paths.memory_file.as_str(),
                        ),
                    },
                    None => vstd::pervasive::unreached(),
                }
            },
            Step::Resume => {
                self.status = Status::Running;
                match &self.snapshot {
                    Some(s) => Action::Control {
                        socket: s.paths.api_sock_path.clone(),
                        request: ControlRequest::resume(),
                    },
                    None => vstd::pervasive::unreached(),
                }
            },
        }
    }

    /// What the step that the worker is at makes of `event`: the
    /// measurement with what the event adds to it, or the cause of the
    /// failure.
    fn take(&self, step: Step, at: Delay, event: Event) -> (r: Result<Measurement, Cause>)
        requires
            self.wf(),
            self@.status is Running,
            step == self@.step(),
        ensures
            r is Ok <==> self@.accepts(event),
            r matches Ok(m) ==> m == self@.recorded(at, event),
            r matches Err(cause) ==> self@.stopped_by(event, cause),
    {
        proof {
            lemma_rounds(self.pre_warm as nat);
        }
        match (step, event) {
            (Step::Validate, Event::Probed(found)) => {
                match &self.snapshot {
                    Some(s) => match s.templates.validate(self.id, &found) {
                        Ok(_) => Ok(self.record),
                        Err(e) => Err(Cause::Validation(e)),
                    },
                    None => vstd::pervasive::unreached(),
                }
            },
            (Step::Rendezvous, Event::Released) => Ok(self.record),
            (Step::Rendezvous, Event::Cancelled) => Err(Cause::Cancelled),
            (Step::Restore, Event::Controlled(outcome)) => {
                match &self.snapshot {
                    Some(s) => match outcome.settle(
                        s.paths.api_sock_path.as_str(),
                        Operation::Restore,
                    ) {
                        Ok(elapsed) => Ok(Measurement { restore: elapsed, ..self.record }),
                        Err(e) => Err(Cause::ControlPlane(e)),
                    },
                    None => vstd::pervasive::unreached(),
                }
            },
            (Step::Resume, Event::Controlled(outcome)) => {
                match &self.snapshot {
                    Some(s) => match outcome.settle(
                        s.paths.api_sock_path.as_str(),
                        Operation::Resume,
                    ) {
                        Ok(elapsed) => Ok(Measurement { resume: elapsed, ..self.record }),
                        Err(e) => Err(Cause::ControlPlane(e)),
                    },
                    None => vstd::pervasive::unreached(),
                }
            },
            (Step::ColdCall, Event::Invoked(reply)) => {
                match reply.delays() {
                    Ok(cold) => Ok(
                        Measurement { global: at.since(self.timer_start), cold, ..self.record },
                    ),
                    Err(e) => Err(Cause::Bench(e)),
                }
            },
            (Step::PreWarmCall, Event::Invoked(reply)) => {
                match reply.delays() {
                    Ok(_) => Ok(self.record),
                    Err(e) => Err(Cause::Bench(e)),
                }
            },
            (Step::WarmCall, Event::Invoked(reply)) => {
                match reply.delays() {
                    Ok(warm) => Ok(Measurement { warm, ..self.record }),
                    Err(e) => Err(Cause::Bench(e)),
                }
            },
            (Step::Jitter, Event::Slept) => Ok(self.record),
            _ => Err(Cause::OutOfTurn),
        }
    }

    /// Takes in what happened to the last thing asked for, at time `at` on
    /// the caller's clock, and says what to do next.
    ///
    /// A fresh worker starts on `Started`. A running worker moves to the
    /// next step of its plan where the event reports that the step it is at
    /// went well, and asks for what that step calls for; past the last step
    /// it reports its measurement. Any other event stops it, and so does a
    /// call of a benchmark that is not implemented, before anything is sent.
    /// A worker that is done or has failed answers every event with a
    /// failure and stays as it is.
    pub fn step(&mut self, at: Delay, event: Event, rng: &mut StdRng) -> (action: Action)
        requires
            old(self).wf(),
        ensures
            final(self).wf(),
            final(self)@ == old(self)@.after(at, event),
            old(self)@.status is Fresh || old(self)@.status is Running ==> final(self)@.asks(action),
            old(self)@.status is Done || old(self)@.status is Failed ==> action is Fail,
            action matches Action::Fail(e) ==> old(self)@.blames(event, e),
            action matches Action::Report { measurement, .. } ==> (!old(self)@.restoring()
                ==> measurement.plain()),
    {
        match self.status {
            Status::Fresh => {
                match event {
                    Event::Started => {
                        proof {
                            lemma_rounds(self.pre_warm as nat);
                        }
                        self.arrive(0, at, rng)
                    },
                    _ => self.fail(None, Cause::OutOfTurn),
                }
            },
            Status::Running => {
                proof {
                    lemma_rounds(self.pre_warm as nat);
                    if !self@.restoring() {
                        lemma_plain_plan(self.pre_warm as nat, self.position as int);
                    }
                }
                let step = step_at(self.snapshot.is_some(), self.pre_warm, self.position);
                match self.take(step, at, event) {
                    Ok(record) => {
                        self.record = record;
                        self.arrive(self.position + 1, at, rng)
                    },
                    Err(cause) => self.fail(Some(step), cause),
                }
            },
            Status::Done | Status::Failed => Action::Fail(
                WorkerError { id: self.id, step: None, cause: Cause::OutOfTurn },
            ),
        }
    }
}

} // verus!
