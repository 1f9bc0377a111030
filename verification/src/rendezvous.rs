//! The rendezvous of a fleet: a point that no worker leaves before every
//! worker has reached it, and that can be called off when a worker fails,
//! so that the others do not wait for ever.
//!
//! The rendezvous counts; whoever holds it lets the workers wait and wakes
//! them. A worker that arrives is either the last of its round, and
//! releases the round, or gets the number of the round to wait for.

use vstd::prelude::*;

verus! {

/// A rendezvous as specifications see it.
pub struct Gate {
    /// The number of workers that meet.
    pub size: nat,
    /// The number of workers that wait in the round under way.
    pub waiting: nat,
    /// The number of rounds that are complete.
    pub generation: nat,
    /// Whether the rendezvous was called off.
    pub cancelled: bool,
}

/// What a worker learns on arriving.
#[derive(Clone, Copy, Debug, PartialEq, Eq, Structural)]
pub enum Arrival {
    /// Others are still to come: wait until round `generation` is complete.
    Wait { generation: u64 },
    /// This was the last worker of the round: all may go on.
    Release,
    /// The rendezvous was called off.
    Cancelled,
}

/// What a waiting worker learns on asking.
#[derive(Clone, Copy, Debug, PartialEq, Eq, Structural)]
pub enum Passage {
    /// The round is not complete: keep waiting.
    Blocked,
    /// The round is complete: go on.
    Open,
    /// The rendezvous was called off.
    Cancelled,
}

impl Gate {
    /// A rendezvous of `size` workers that none has reached yet.
    pub open spec fn fresh(size: nat) -> Gate {
        Gate { size, waiting: 0, generation: 0, cancelled: false }
    }

    /// What holds of every state that a rendezvous reaches.
    pub open spec fn valid(self) -> bool {
        &&& self.generation <= u64::MAX
        &&& self.size == 0 ==> self.waiting == 0
        &&& self.size > 0 ==> self.waiting < self.size
    }

    /// Whether the next arrival completes the round under way.
    pub open spec fn completes(self) -> bool {
        self.waiting + 1 >= self.size
    }

    /// The state after one more worker has arrived. The arrival that would
    /// complete a round beyond the last that can be counted calls the
    /// rendezvous off.
    pub open spec fn arrived(self) -> Gate {
        if self.cancelled {
            self
        } else if !self.completes() {
            Gate { waiting: self.waiting + 1, ..self }
        } else if self.generation < u64::MAX {
            Gate { waiting: 0, generation: self.generation + 1, ..self }
        } else {
            Gate { cancelled: true, ..self }
        }
    }

    /// What the worker whose arrival led to this state learns, given the
    /// state before.
    pub open spec fn tells(self, before: Gate) -> Arrival {
        if self.cancelled {
            Arrival::Cancelled
        } else if self.generation > before.generation {
            Arrival::Release
        } else {
            Arrival::Wait { generation: before.generation as u64 }
        }
    }

    /// What a worker that waits for round `generation` to be complete
    /// learns.
    pub open spec fn passage(self, generation: nat) -> Passage {
        if self.cancelled {
            Passage::Cancelled
        } else if self.generation > generation {
            Passage::Open
        } else {
            Passage::Blocked
        }
    }
}

/// A fleet at its rendezvous, as specifications see it: the rendezvous, and
/// for each worker how many times it has arrived there and how many times
/// it has left.
pub struct Fleet {
    pub gate: Gate,
    /// For each worker, the number of times that it has arrived.
    pub entered: Seq<nat>,
    /// For each worker, the number of times that it has left.
    pub left: Seq<nat>,
}

/// The number of workers that have arrived `round` times.
pub open spec fn arrivals(entered: Seq<nat>, round: nat) -> nat
    decreases entered.len(),
{
    if entered.len() == 0 {
        0
    } else {
        arrivals(entered.drop_last(), round) + if entered.last() == round {
            1nat
        } else {
            0nat
        }
    }
}

impl Fleet {
    /// A fleet of `size` workers before any has arrived.
    pub open spec fn fresh(size: nat) -> Fleet {
        Fleet {
            gate: Gate::fresh(size),
            entered: Seq::new(size, |i: int| 0nat),
            left: Seq::new(size, |i: int| 0nat),
        }
    }

    /// Whether `worker` may arrive: it is one of the fleet, does not wait
    /// already, and the rendezvous stands.
    pub open spec fn may_arrive(self, worker: int) -> bool {
        &&& 0 <= worker < self.entered.len()
        &&& self.entered[worker] == self.left[worker]
        &&& !self.gate.cancelled
    }

    /// The fleet after `worker` has arrived.
    pub open spec fn arrive(self, worker: int) -> Fleet {
        Fleet {
            gate: self.gate.arrived(),
            entered: self.entered.update(worker, self.entered[worker] + 1),
            ..self
        }
    }

    /// Whether `worker` may leave: it waits, and the round that it waits
    /// for is complete.
    pub open spec fn may_leave(self, worker: int) -> bool {
        &&& 0 <= worker < self.entered.len()
        &&& self.entered[worker] == self.left[worker] + 1
        &&& self.gate.passage((self.entered[worker] - 1) as nat) is Open
    }

    /// The fleet after `worker` has left.
    pub open spec fn leave(self, worker: int) -> Fleet {
        Fleet { left: self.left.update(worker, self.left[worker] + 1), ..self }
    }

    /// What holds of every state that a fleet reaches.
    pub open spec fn valid(self) -> bool {
        &&& self.gate.valid()
        &&& self.gate.size >= 1
        &&& self.entered.len() == self.gate.size
        &&& self.left.len() == self.gate.size
        &&& forall|i: int|
            0 <= i < self.left.len() ==> (#[trigger] self.left[i]) <= self.entered[i]
                <= self.left[i] + 1
        &&& forall|i: int| 0 <= i < self.left.len() ==> (#[trigger] self.left[i]) <= self.gate.generation
        &&& forall|i: int|
            0 <= i < self.entered.len() ==> self.gate.generation <= (#[trigger] self.entered[i])
                <= self.gate.generation + 1
        &&& !self.gate.cancelled ==> self.gate.waiting == arrivals(
            self.entered,
            self.gate.generation + 1,
        )
    }

    /// Whether no worker has left a rendezvous that another has not reached.
    pub open spec fn aligned(self) -> bool {
        forall|i: int, j: int|
            0 <= i < self.left.len() && 0 <= j < self.entered.len() ==> (#[trigger] self.left[i])
                <= (#[trigger] self.entered[j])
    }
}

/// No more workers have arrived than there are; where all have arrived
/// `round` times, each one has.
proof fn lemma_arrivals_bound(entered: Seq<nat>, round: nat)
    ensures
        arrivals(entered, round) <= entered.len(),
        arrivals(entered, round) == entered.len() ==> forall|i: int|
            0 <= i < entered.len() ==> (#[trigger] entered[i]) == round,
        (forall|i: int| 0 <= i < entered.len() ==> (#[trigger] entered[i]) != round) ==> arrivals(
            entered,
            round,
        ) == 0,
    decreases entered.len(),
{
    if entered.len() > 0 {
        let head = entered.drop_last();
        lemma_arrivals_bound(head, round);
        if arrivals(entered, round) == entered.len() {
            assert forall|i: int| 0 <= i < entered.len() implies (#[trigger] entered[i])
                == round by {
                if i < head.len() {
                    assert(head[i] == entered[i]);
                }
            }
        }
        if forall|i: int| 0 <= i < entered.len() ==> (#[trigger] entered[i]) != round {
            assert forall|i: int| 0 <= i < head.len() implies (#[trigger] head[i]) != round by {
                assert(head[i] == entered[i]);
            }
        }
    }
}

/// One more worker has arrived `round` times once one that had not does.
proof fn lemma_arrivals_update(entered: Seq<nat>, worker: int, round: nat)
    requires
        0 <= worker < entered.len(),
        entered[worker] != round,
    ensures
        arrivals(entered.update(worker, round), round) == arrivals(entered, round) + 1,
    decreases entered.len(),
{
    let after = entered.update(worker, round);
    if worker == entered.len() - 1 {
        assert(after.drop_last() =~= entered.drop_last());
    } else {
        assert(after.drop_last() =~= entered.drop_last().update(worker, round));
        lemma_arrivals_update(entered.drop_last(), worker, round);
    }
}

/// A fresh fleet is in a valid state.
pub proof fn lemma_fresh_fleet_is_valid(size: nat)
    requires
        size >= 1,
    ensures
        Fleet::fresh(size).valid(),
{
    lemma_arrivals_bound(Fleet::fresh(size).entered, 1);
}

/// An arrival leads from a valid state to a valid one.
pub proof fn lemma_arrival_keeps_valid(fleet: Fleet, worker: int)
    requires
        fleet.valid(),
        fleet.may_arrive(worker),
    ensures
        fleet.arrive(worker).valid(),
{
    let round = fleet.gate.generation + 1;
    let after = fleet.arrive(worker);
    assert(fleet.left[worker] <= fleet.gate.generation);
    assert(fleet.entered[worker] == fleet.gate.generation);
    lemma_arrivals_update(fleet.entered, worker, round);
    lemma_arrivals_bound(after.entered, round);
    if fleet.gate.completes() {
        assert(arrivals(after.entered, round) == after.entered.len());
        if fleet.gate.generation < u64::MAX {
            lemma_arrivals_bound(after.entered, round + 1);
        }
    }
}

/// A worker that leaves leads from a valid state to a valid one.
pub proof fn lemma_leaving_keeps_valid(fleet: Fleet, worker: int)
    requires
        fleet.valid(),
        fleet.may_leave(worker),
    ensures
        fleet.leave(worker).valid(),
{
}

/// In every valid state, no worker has left a rendezvous that another has
/// not reached: none is a phase ahead of a worker that has yet to arrive at
/// the rendezvous between the two phases.
pub proof fn lemma_valid_fleet_is_aligned(fleet: Fleet)
    requires
        fleet.valid(),
    ensures
        fleet.aligned(),
{
}

/// The rendezvous of a fleet.
pub struct Rendezvous {
    size: usize,
    waiting: usize,
    generation: u64,
    cancelled: bool,
}

impl View for Rendezvous {
    type V = Gate;

    closed spec fn view(&self) -> Gate {
        Gate {
            size: self.size as nat,
            waiting: self.waiting as nat,
            generation: self.generation as nat,
            cancelled: self.cancelled,
        }
    }
}

impl Rendezvous {
    #[verifier::type_invariant]
    spec fn inv(self) -> bool {
        self@.valid()
    }

    /// A rendezvous of `size` workers. With no worker, or one, every
    /// arrival is the last of its round.
    pub fn new(size: usize) -> (r: Rendezvous)
        ensures
            r@ == Gate::fresh(size as nat),
    {
        Rendezvous { size, waiting: 0, generation: 0, cancelled: false }
    }

    /// Takes in the arrival of one worker.
    pub fn arrive(&mut self) -> (arrival: Arrival)
        ensures
            old(self)@.valid(),
            final(self)@.valid(),
            final(self)@ == old(self)@.arrived(),
            arrival == final(self)@.tells(old(self)@),
    {
        proof {
            use_type_invariant(&*self);
        }
        if self.cancelled {
            return Arrival::Cancelled;
        }
        if self.waiting + 1 < self.size {
            let ticket = self.generation;
            self.waiting = self.waiting + 1;
            return Arrival::Wait { generation: ticket };
        }
        if self.generation < u64::MAX {
            *self = Rendezvous {
                size: self.size,
                waiting: 0,
                generation: self.generation + 1,
                cancelled: false,
            };
            Arrival::Release
        } else {
            self.cancelled = true;
            Arrival::Cancelled
        }
    }

    /// Calls the rendezvous off: from now on nobody waits and nobody
    /// passes.
    pub fn cancel(&mut self)
        ensures
            final(self)@ == (Gate { cancelled: true, ..old(self)@ }),
    {
        proof {
            use_type_invariant(&*self);
        }
        self.cancelled = true;
    }

    /// What a worker learns that waits for round `generation` to be
    /// complete.
    pub fn passage(&self, generation: u64) -> (p: Passage)
        ensures
            p == self@.passage(generation as nat),
    {
        if self.cancelled {
            Passage::Cancelled
        } else if self.generation > generation {
            Passage::Open
        } else {
            Passage::Blocked
        }
    }
}

} // verus!
