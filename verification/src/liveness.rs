//! Waiting for a sandbox's service to accept connections: a bounded number
//! of attempts, with a random wait after each one that fails.
//!
//! The poller decides; its caller connects and sleeps, and tells the poller
//! how each went.

use crate::jitter::uniform;
use rand::rngs::StdRng;
use vstd::prelude::*;

verus! {

/// The number of connection attempts after which the poller gives up.
pub const MAX_ATTEMPTS: u32 = 240;

/// The shortest wait after a failed attempt, in milliseconds.
pub const BACKOFF_MIN_MS: u64 = 400;

/// The bound that every wait after a failed attempt stays below, in
/// milliseconds.
pub const BACKOFF_END_MS: u64 = 600;

/// Where a poller stands.
#[derive(Clone, Copy, Debug, PartialEq, Eq, Structural)]
pub enum PollPhase {
    /// Nothing was asked yet.
    Idle,
    /// A connection attempt is under way.
    Connecting,
    /// The wait after a failed attempt is under way.
    Sleeping,
    /// A connection was made: the service is live.
    Live,
    /// Every attempt failed.
    TimedOut,
}

/// What happened to what the poller asked for last.
#[derive(Clone, Copy, Debug, PartialEq, Eq, Structural)]
pub enum ProbeEvent {
    /// Polling is to begin.
    Started,
    /// The connection was made. The caller drops it: it was a probe.
    Connected,
    /// The connection was refused, or failed otherwise.
    Refused,
    /// The wait is over.
    Slept,
}

/// What the poller asks for next.
#[derive(Clone, Copy, Debug, PartialEq, Eq, Structural)]
pub enum ProbeAction {
    /// Try to connect to the service.
    Connect,
    /// Wait for so many milliseconds.
    Sleep { millis: u64 },
    /// Stop: the service is live.
    Live,
    /// Stop: the service did not come up in time.
    TimedOut,
}

/// The address that was polled in vain.
#[derive(Clone, Debug, PartialEq, Eq)]
pub struct TimeoutError {
    pub address: String,
}

/// A poller as specifications see it.
pub struct PollerState {
    pub phase: PollPhase,
    /// The number of attempts that failed.
    pub failures: nat,
    /// The sum of the waits asked for so far, in milliseconds.
    pub slept_ms: nat,
}

impl PollerState {
    /// The state before anything was asked.
    pub open spec fn fresh() -> PollerState {
        PollerState { phase: PollPhase::Idle, failures: 0, slept_ms: 0 }
    }

    /// What holds of every state that a poller reaches.
    pub open spec fn valid(self) -> bool {
        &&& self.failures <= MAX_ATTEMPTS
        &&& BACKOFF_MIN_MS * self.failures <= self.slept_ms <= (BACKOFF_END_MS - 1) * self.failures
        &&& self.phase is Idle ==> self.failures == 0
        &&& self.phase is Connecting ==> self.failures < MAX_ATTEMPTS
        &&& self.phase is Sleeping ==> self.failures >= 1
        &&& self.phase is TimedOut ==> self.failures == MAX_ATTEMPTS
    }

    /// Whether `event` answers what the poller asked for last.
    pub open spec fn expects(self, event: ProbeEvent) -> bool {
        match (self.phase, event) {
            (PollPhase::Idle, ProbeEvent::Started) => true,
            (PollPhase::Connecting, ProbeEvent::Connected) => true,
            (PollPhase::Connecting, ProbeEvent::Refused) => true,
            (PollPhase::Sleeping, ProbeEvent::Slept) => true,
            _ => false,
        }
    }

    /// The state after an expected event, where `millis` is the wait drawn
    /// after a refusal.
    pub open spec fn after(self, event: ProbeEvent, millis: nat) -> PollerState {
        match event {
            ProbeEvent::Started => PollerState { phase: PollPhase::Connecting, ..self },
            ProbeEvent::Connected => PollerState { phase: PollPhase::Live, ..self },
            ProbeEvent::Refused => PollerState {
                phase: PollPhase::Sleeping,
                failures: self.failures + 1,
                slept_ms: self.slept_ms + millis,
            },
            ProbeEvent::Slept => if self.failures < MAX_ATTEMPTS {
                PollerState { phase: PollPhase::Connecting, ..self }
            } else {
                PollerState { phase: PollPhase::TimedOut, ..self }
            },
        }
    }

    /// What a poller in this state asks for, where `millis` is the wait
    /// drawn on entering it.
    pub open spec fn asks(self, millis: nat) -> Option<ProbeAction> {
        match self.phase {
            PollPhase::Idle => None,
            PollPhase::Connecting => Some(ProbeAction::Connect),
            PollPhase::Sleeping => Some(ProbeAction::Sleep { millis: millis as u64 }),
            PollPhase::Live => Some(ProbeAction::Live),
            PollPhase::TimedOut => Some(ProbeAction::TimedOut),
        }
    }

    /// The state after `rounds` attempts have failed one after the other,
    /// the wait after the `i`-th being `waits[i]`, and each wait is over.
    pub open spec fn after_refusals(rounds: nat, waits: Seq<nat>) -> PollerState
        decreases rounds,
    {
        if rounds == 0 {
            PollerState::fresh().after(ProbeEvent::Started, 0)
        } else {
            PollerState::after_refusals((rounds - 1) as nat, waits).after(
                ProbeEvent::Refused,
                waits[rounds - 1],
            ).after(ProbeEvent::Slept, 0)
        }
    }
}

/// The wait that an action asks for, in milliseconds; zero where it asks
/// for none.
pub open spec fn wait_of(action: Option<ProbeAction>) -> nat {
    match action {
        Some(ProbeAction::Sleep { millis }) => millis as nat,
        _ => 0,
    }
}

/// A fresh poller is in a valid state, and every expected event leads from a
/// valid state to a valid one, as long as the wait drawn is within bounds.
pub proof fn lemma_valid_is_kept(s: PollerState, event: ProbeEvent, millis: nat)
    requires
        s.valid(),
        s.expects(event),
        BACKOFF_MIN_MS <= millis < BACKOFF_END_MS,
    ensures
        PollerState::fresh().valid(),
        s.after(event, millis).valid(),
{
    assert(BACKOFF_MIN_MS * (s.failures + 1) == BACKOFF_MIN_MS * s.failures + BACKOFF_MIN_MS)
        by (nonlinear_arith);
    assert((BACKOFF_END_MS - 1) * (s.failures + 1) == (BACKOFF_END_MS - 1) * s.failures + (
    BACKOFF_END_MS - 1)) by (nonlinear_arith);
}

/// A poller that has timed out has made exactly 240 attempts, and the waits
/// between them add up to at least 96 and less than 144 seconds.
pub proof fn lemma_timeout_budget(s: PollerState)
    requires
        s.valid(),
        s.phase is TimedOut,
    ensures
        s.failures == 240,
        96_000 <= s.slept_ms < 144_000,
{
}

/// Against a service that never accepts, the poller asks for a further
/// attempt after each of the first 239 failures, and times out after the
/// 240th, whatever waits were drawn within bounds.
pub proof fn lemma_never_accepting(rounds: nat, waits: Seq<nat>)
    requires
        rounds <= MAX_ATTEMPTS,
        waits.len() >= rounds,
        forall|i: int| 0 <= i < rounds ==> BACKOFF_MIN_MS <= #[trigger] waits[i] < BACKOFF_END_MS,
    ensures
        ({
            let s = PollerState::after_refusals(rounds, waits);
            &&& s.valid()
            &&& s.failures == rounds
            &&& rounds < MAX_ATTEMPTS ==> s.phase is Connecting
            &&& rounds == MAX_ATTEMPTS ==> s.phase is TimedOut
        }),
    decreases rounds,
{
    if rounds > 0 {
        let before = PollerState::after_refusals((rounds - 1) as nat, waits);
        lemma_never_accepting((rounds - 1) as nat, waits);
        lemma_valid_is_kept(before, ProbeEvent::Refused, waits[rounds - 1]);
        let asleep = before.after(ProbeEvent::Refused, waits[rounds - 1]);
        lemma_valid_is_kept(asleep, ProbeEvent::Slept, BACKOFF_MIN_MS as nat);
    }
}

/// The poller of one wait for liveness.
pub struct LivenessPoller {
    phase: PollPhase,
    failures: u32,
    slept_ms: u64,
}

impl View for LivenessPoller {
    type V = PollerState;

    closed spec fn view(&self) -> PollerState {
        PollerState {
            phase: self.phase,
            failures: self.failures as nat,
            slept_ms: self.slept_ms as nat,
        }
    }
}

impl LivenessPoller {
    #[verifier::type_invariant]
    spec fn inv(self) -> bool {
        self@.valid()
    }

    /// A poller that was asked nothing yet.
    pub fn new() -> (p: LivenessPoller)
        ensures
            p@ == PollerState::fresh(),
    {
        LivenessPoller { phase: PollPhase::Idle, failures: 0, slept_ms: 0 }
    }

    /// Where the poller stands.
    pub fn phase(&self) -> (phase: PollPhase)
        ensures
            phase == self@.phase,
            self@.valid(),
    {
        proof {
            use_type_invariant(self);
        }
        self.phase
    }

    /// The number of attempts that failed so far.
    pub fn failures(&self) -> (n: u32)
        ensures
            n == self@.failures,
            self@.valid(),
    {
        proof {
            use_type_invariant(self);
        }
        self.failures
    }

    /// The sum of the waits asked for so far, in milliseconds.
    pub fn slept_millis(&self) -> (ms: u64)
        ensures
            ms == self@.slept_ms,
            self@.valid(),
    {
        proof {
            use_type_invariant(self);
        }
        self.slept_ms
    }

    /// Takes in what happened to the last thing asked for, and says what to
    /// do next. An event that does not answer what was asked changes
    /// nothing, and nothing is asked for. After a refusal the poller asks
    /// for a wait of at least 400 and less than 600 milliseconds; after the
    /// wait that follows the 240th refusal it times out.
    pub fn step(&mut self, event: ProbeEvent, rng: &mut StdRng) -> (action: Option<ProbeAction>)
        ensures
            old(self)@.valid(),
            final(self)@.valid(),
            !old(self)@.expects(event) ==> action is None && final(self)@ == old(self)@,
            action matches Some(ProbeAction::Sleep { millis }) ==> BACKOFF_MIN_MS <= millis
                < BACKOFF_END_MS,
            old(self)@.expects(event) ==> final(self)@ == old(self)@.after(event, wait_of(action))
                && action == final(self)@.asks(wait_of(action)),
    {
        proof {
            use_type_invariant(&*self);
        }
        match (self.phase, event) {
            (PollPhase::Idle, ProbeEvent::Started) => {
                self.phase = PollPhase::Connecting;
                assert(self@ == old(self)@.after(event, 0));
                Some(ProbeAction::Connect)
            },
            (PollPhase::Connecting, ProbeEvent::Connected) => {
                self.phase = PollPhase::Live;
                assert(self@ == old(self)@.after(event, 0));
                Some(ProbeAction::Live)
            },
            (PollPhase::Connecting, ProbeEvent::Refused) => {
                let millis = uniform(rng, BACKOFF_MIN_MS, BACKOFF_END_MS);
                proof {
                    lemma_valid_is_kept(old(self)@, event, millis as nat);
                }
                *self = LivenessPoller {
                    phase: PollPhase::Sleeping,
                    failures: self.failures + 1,
                    slept_ms: self.slept_ms + millis,
                };
                assert(self@ == old(self)@.after(event, millis as nat));
                Some(ProbeAction::Sleep { millis })
            },
            (PollPhase::Sleeping, ProbeEvent::Slept) => {
                if self.failures < MAX_ATTEMPTS {
                    self.phase = PollPhase::Connecting;
                    assert(self@ == old(self)@.after(event, 0));
                    Some(ProbeAction::Connect)
                } else {
                    self.phase = PollPhase::TimedOut;
                    assert(self@ == old(self)@.after(event, 0));
                    Some(ProbeAction::TimedOut)
                }
            },
            _ => None,
        }
    }
}

} // verus!
