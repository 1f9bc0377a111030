//! The report of a run: one line per sandbox, in the order of the ids,
//! whatever the order in which the workers came back.
//!
//! Each sandbox has a slot of its own, written once; the report is made
//! only when every slot is filled.

use crate::delay::Measurement;
use crate::text::{decimal, push_decimal};
use crate::worker::WorkerError;
use vstd::prelude::*;

verus! {

/// What one worker came back with: the id of its sandbox and what it
/// measured, or its failure.
pub type Outcome = Result<(usize, Measurement), WorkerError>;

/// Why no report was made.
#[derive(Clone, Debug, PartialEq, Eq)]
pub enum ReportError {
    /// A worker failed; this is the first failure among the outcomes.
    Worker(WorkerError),
    /// An outcome names a sandbox that the fleet does not have.
    UnknownSandbox { id: usize },
    /// Two outcomes name the same sandbox.
    Twice { id: usize },
    /// No outcome names this sandbox; it is the first such.
    Missing { id: usize },
}

/// The line of the report for sandbox `id`: the id, a comma, and the record
/// of its measurement.
pub open spec fn line(id: nat, m: Measurement) -> Seq<char> {
    decimal(id) + seq![','] + m.record()
}

/// The id that the `k`-th outcome names. Meant for an outcome that is no
/// failure.
pub open spec fn id_at(outcomes: Seq<Outcome>, k: int) -> usize {
    outcomes[k]->Ok_0.0
}

/// Whether the `k`-th outcome, itself no failure, cannot be placed: it names
/// a sandbox that the fleet does not have, or one that an earlier outcome
/// has named.
pub open spec fn misplaced(n: nat, outcomes: Seq<Outcome>, k: int) -> bool {
    id_at(outcomes, k) >= n || exists|j: int| 0 <= j < k && id_at(outcomes, j) == id_at(outcomes, k)
}

/// Whether some outcome names sandbox `id`.
pub open spec fn named(outcomes: Seq<Outcome>, id: int) -> bool {
    exists|k: int| 0 <= k < outcomes.len() && id_at(outcomes, k) == id
}

/// Whether the outcomes are those of a fleet of `n` sandboxes that all
/// succeeded: none is a failure, and each sandbox is named by exactly one.
pub open spec fn complete(n: nat, outcomes: Seq<Outcome>) -> bool {
    &&& forall|k: int| 0 <= k < outcomes.len() ==> (#[trigger] outcomes[k]) is Ok
    &&& forall|k: int| 0 <= k < outcomes.len() ==> !misplaced(n, outcomes, k)
    &&& forall|id: int| 0 <= id < n ==> named(outcomes, id)
}

/// Whether `lines` is the report of the outcomes: one line per sandbox, at
/// the place of its id, made from what the outcome that names it measured.
pub open spec fn reports(lines: Seq<String>, n: nat, outcomes: Seq<Outcome>) -> bool {
    &&& lines.len() == n
    &&& forall|k: int|
        0 <= k < outcomes.len() ==> lines[id_at(outcomes, k) as int]@ == line(
            id_at(outcomes, k) as nat,
            (#[trigger] outcomes[k])->Ok_0.1,
        )
}

/// The line of the report for sandbox `id`.
pub fn render_line(id: usize, m: &Measurement) -> (s: String)
    ensures
        s@ == line(id as nat, *m),
{
    let mut s = String::new();
    push_decimal(&mut s, id as u128);
    s.push(',');
    m.push_record(&mut s);
    assert(s@ =~= line(id as nat, *m));
    s
}

/// The first failure among the outcomes, if there is one.
fn first_failure(outcomes: &Vec<Outcome>) -> (r: Option<usize>)
    ensures
        r is None <==> forall|k: int| 0 <= k < outcomes.len() ==> (#[trigger] outcomes[k]) is Ok,
        r matches Some(at) ==> at < outcomes.len() && outcomes[at as int] is Err && forall|k: int|
            0 <= k < at ==> (#[trigger] outcomes[k]) is Ok,
{
    let mut k: usize = 0;
    while k < outcomes.len()
        invariant
            k <= outcomes.len(),
            forall|j: int| 0 <= j < k ==> (#[trigger] outcomes[j]) is Ok,
        decreases outcomes.len() - k,
    {
        if outcomes[k].is_err() {
            return Some(k);
        }
        k = k + 1;
    }
    None
}

/// The report of a fleet of `n` sandboxes, from what its workers came back
/// with, in any order: a line for each sandbox, in the order of the ids.
///
/// One failure fails the report, with the first failure among the outcomes.
/// Where no worker failed, the first outcome that cannot be placed fails it,
/// and where each has its place, the first sandbox that none has named.
pub fn report(n: usize, outcomes: Vec<Outcome>) -> (r: Result<Vec<String>, ReportError>)
    ensures
        r is Ok <==> complete(n as nat, outcomes@),
        r matches Ok(lines) ==> reports(lines@, n as nat, outcomes@),
        r matches Err(ReportError::Worker(e)) ==> exists|at: int|
            {
                &&& 0 <= at < outcomes.len()
                &&& #[trigger] outcomes[at] == Err::<(usize, Measurement), WorkerError>(e)
                &&& forall|k: int| 0 <= k < at ==> (#[trigger] outcomes[k]) is Ok
            },
        r matches Err(e) ==> (!(e is Worker) ==> forall|k: int|
            0 <= k < outcomes.len() ==> (#[trigger] outcomes[k]) is Ok),
        r matches Err(ReportError::UnknownSandbox { id }) ==> id >= n && exists|at: int|
            {
                &&& 0 <= at < outcomes.len()
                &&& #[trigger] id_at(outcomes@, at) == id
                &&& forall|k: int| 0 <= k < at ==> !misplaced(n as nat, outcomes@, k)
            },
        r matches Err(ReportError::Twice { id }) ==> id < n && exists|at: int|
            {
                &&& 0 <= at < outcomes.len()
                &&& #[trigger] id_at(outcomes@, at) == id
                &&& misplaced(n as nat, outcomes@, at)
                &&& forall|k: int| 0 <= k < at ==> !misplaced(n as nat, outcomes@, k)
            },
        r matches Err(ReportError::Missing { id }) ==> {
            &&& id < n
            &&& !named(outcomes@, id as int)
            &&& forall|i: int| 0 <= i < id ==> named(outcomes@, i)
            &&& forall|k: int| 0 <= k < outcomes.len() ==> !misplaced(n as nat, outcomes@, k)
        },
{
    match first_failure(&outcomes) {
        Some(at) => {
            let mut taken = outcomes;
            match taken.swap_remove(at) {
                Err(e) => {
                    assert(outcomes[at as int] == Err::<(usize, Measurement), WorkerError>(e));
                    assert(!complete(n as nat, outcomes@));
                    return Err(ReportError::Worker(e));
                },
                Ok(_) => {
                    return vstd::pervasive::unreached();
                },
            }
        },
        None => {},
    }
    let mut slots: Vec<Option<Measurement>> = Vec::new();
    let mut id: usize = 0;
    while id < n
        invariant
            id <= n,
            slots.len() == id,
            forall|i: int| 0 <= i < id ==> (#[trigger] slots[i]) is None,
        decreases n - id,
    {
        slots.push(None);
        id = id + 1;
    }
    // `from[id]` is the outcome that filled slot `id`.
    let ghost mut from: Seq<int> = Seq::new(n as nat, |i: int| 0);
    let mut k: usize = 0;
    while k < outcomes.len()
        invariant
            k <= outcomes.len(),
            slots.len() == n,
            from.len() == n,
            forall|j: int| 0 <= j < outcomes.len() ==> (#[trigger] outcomes[j]) is Ok,
            forall|j: int| 0 <= j < k ==> !misplaced(n as nat, outcomes@, j),
            forall|i: int|
                0 <= i < n && (#[trigger] slots[i]) is Some ==> 0 <= from[i] < k && id_at(
                    outcomes@,
                    from[i],
                ) == i && slots[i] == Some(outcomes[from[i]]->Ok_0.1),
            forall|j: int|
                0 <= j < k ==> (#[trigger] id_at(outcomes@, j)) < n && slots[id_at(
                    outcomes@,
                    j,
                ) as int] is Some && from[id_at(outcomes@, j) as int] == j,
        decreases outcomes.len() - k,
    {
        let ghost here = k as int;
        match &outcomes[k] {
            Ok((id, m)) => {
                let id = *id;
                assert(id == id_at(outcomes@, here));
                if id >= n {
                    assert(misplaced(n as nat, outcomes@, here));
                    return Err(ReportError::UnknownSandbox { id });
                }
                if slots[id].is_some() {
                    assert(misplaced(n as nat, outcomes@, here)) by {
                        assert(id_at(outcomes@, from[id as int]) == id_at(outcomes@, here));
                    }
                    return Err(ReportError::Twice { id });
                }
                assert(!misplaced(n as nat, outcomes@, here)) by {
                    if misplaced(n as nat, outcomes@, here) {
                        let j = choose|j: int|
                            0 <= j < here && id_at(outcomes@, j) == id_at(outcomes@, here);
                        assert(slots[id_at(outcomes@, j) as int] is Some);
                    }
                }
                let ghost before = slots@;
                slots.set(id, Some(*m));
                proof {
                    assert forall|j: int| 0 <= j < here implies id_at(outcomes@, j) != id by {
                        assert(before[id_at(outcomes@, j) as int] is Some);
                    }
                    from = from.update(id as int, here);
                }
            },
            Err(_) => {
                return vstd::pervasive::unreached();
            },
        }
        k = k + 1;
    }
    let mut lines: Vec<String> = Vec::new();
    let mut id: usize = 0;
    while id < n
        invariant
            id <= n,
            k == outcomes.len(),
            slots.len() == n,
            from.len() == n,
            lines.len() == id,
            forall|j: int| 0 <= j < outcomes.len() ==> (#[trigger] outcomes[j]) is Ok,
            forall|j: int| 0 <= j < k ==> !misplaced(n as nat, outcomes@, j),
            forall|i: int|
                0 <= i < n && (#[trigger] slots[i]) is Some ==> 0 <= from[i] < k && id_at(
                    outcomes@,
                    from[i],
                ) == i && slots[i] == Some(outcomes[from[i]]->Ok_0.1),
            forall|j: int|
                0 <= j < k ==> (#[trigger] id_at(outcomes@, j)) < n && slots[id_at(
                    outcomes@,
                    j,
                ) as int] is Some && from[id_at(outcomes@, j) as int] == j,
            forall|i: int| 0 <= i < id ==> (#[trigger] slots[i]) is Some,
            forall|i: int|
                0 <= i < id ==> (#[trigger] lines[i])@ == line(i as nat, slots[i]->Some_0),
        decreases n - id,
    {
        match &slots[id] {
            Some(m) => {
                lines.push(render_line(id, m));
            },
            None => {
                assert(!named(outcomes@, id as int)) by {
                    if named(outcomes@, id as int) {
                        let j = choose|j: int| 0 <= j < outcomes.len() && id_at(outcomes@, j) == id;
                        assert(slots[id_at(outcomes@, j) as int] is Some);
                    }
                }
                assert forall|i: int| 0 <= i < id implies named(outcomes@, i) by {
                    assert(slots[i] is Some);
                    assert(id_at(outcomes@, from[i]) == i);
                }
                return Err(ReportError::Missing { id });
            },
        }
        id = id + 1;
    }
    proof {
        assert forall|i: int| 0 <= i < n implies named(outcomes@, i) by {
            assert(slots[i] is Some);
            assert(id_at(outcomes@, from[i]) == i);
        }
        assert forall|j: int| 0 <= j < outcomes.len() implies lines[id_at(outcomes@, j) as int]@
            == line(id_at(outcomes@, j) as nat, (#[trigger] outcomes[j])->Ok_0.1) by {
            let i = id_at(outcomes@, j) as int;
            assert(slots[i] is Some);
            assert(from[i] == j);
        }
    }
    Ok(lines)
}

/// The report does not depend on the order in which the workers came back:
/// of two complete sets of outcomes in which each sandbox has the same
/// measurement, every report of the one is a report of the other, line by
/// line.
pub proof fn lemma_report_ignores_order(
    n: nat,
    first: Seq<Outcome>,
    second: Seq<Outcome>,
    lines_first: Seq<String>,
    lines_second: Seq<String>,
)
    requires
        complete(n, first),
        complete(n, second),
        forall|j: int, k: int|
            0 <= j < first.len() && 0 <= k < second.len() && id_at(first, j) == id_at(second, k)
                ==> (#[trigger] first[j])->Ok_0.1 == (#[trigger] second[k])->Ok_0.1,
        reports(lines_first, n, first),
        reports(lines_second, n, second),
    ensures
        lines_first.len() == n,
        lines_second.len() == n,
        forall|id: int| 0 <= id < n ==> (#[trigger] lines_first[id])@ == lines_second[id]@,
{
    assert forall|id: int| 0 <= id < n implies (#[trigger] lines_first[id])@ == lines_second[id]@ by {
        assert(named(first, id));
        assert(named(second, id));
        let j = choose|j: int| 0 <= j < first.len() && id_at(first, j) == id;
        let k = choose|k: int| 0 <= k < second.len() && id_at(second, k) == id;
        assert(first[j]->Ok_0.1 == second[k]->Ok_0.1);
    }
}

} // verus!
