use fbpml::report::{render_line, report, Outcome, ReportError};
use fbpml::worker::{Cause, Step, WorkerError};
use fbpml::{BenchError, Delay, Delays, Measurement};

fn measured(millis: u64) -> Measurement {
    let d = Delays::new(Delay::from_millis(millis), Delay::from_millis(millis));
    Measurement::from((Delay::from_millis(millis), d, d))
}

fn failure(id: usize) -> WorkerError {
    WorkerError { id, step: Some(Step::ColdCall), cause: Cause::Bench(BenchError::Rpc) }
}

#[test]
fn line_starts_with_the_id() {
    assert_eq!(render_line(12, &measured(1)), "12,1000,0,0,1000,1000,1000,1000");
}

#[test]
fn lines_come_in_the_order_of_the_ids() {
    let outcomes: Vec<Outcome> = vec![Ok((2, measured(2))), Ok((0, measured(7))), Ok((1, measured(1)))];
    assert_eq!(
        report(3, outcomes),
        Ok(vec![
            String::from("0,7000,0,0,7000,7000,7000,7000"),
            String::from("1,1000,0,0,1000,1000,1000,1000"),
            String::from("2,2000,0,0,2000,2000,2000,2000"),
        ])
    );
}

#[test]
fn order_of_completion_does_not_matter() {
    let orders: [[usize; 3]; 6] = [[0, 1, 2], [0, 2, 1], [1, 0, 2], [1, 2, 0], [2, 0, 1], [2, 1, 0]];
    let expected = report(3, vec![Ok((0, measured(5))), Ok((1, measured(6))), Ok((2, measured(7)))]);
    assert_eq!(expected.as_ref().map(|l| l.len()), Ok(3));
    for order in orders {
        let outcomes: Vec<Outcome> =
            order.iter().map(|id| Ok((*id, measured(5 + *id as u64)))).collect();
        assert_eq!(report(3, outcomes), expected);
    }
}

#[test]
fn fleet_of_one_and_none() {
    assert_eq!(report(1, vec![Ok((0, measured(1)))]), Ok(vec![render_line(0, &measured(1))]));
    assert_eq!(report(0, vec![]), Ok(vec![]));
}

#[test]
fn first_failure_fails_the_report() {
    let outcomes: Vec<Outcome> =
        vec![Ok((0, measured(1))), Err(failure(2)), Ok((1, measured(1))), Err(failure(3))];
    assert_eq!(report(4, outcomes), Err(ReportError::Worker(failure(2))));
}

#[test]
fn failure_comes_before_any_other_complaint() {
    let outcomes: Vec<Outcome> = vec![Ok((9, measured(1))), Ok((9, measured(1))), Err(failure(0))];
    assert_eq!(report(2, outcomes), Err(ReportError::Worker(failure(0))));
}

#[test]
fn unknown_sandbox_fails_the_report() {
    let outcomes: Vec<Outcome> = vec![Ok((0, measured(1))), Ok((2, measured(1)))];
    assert_eq!(report(2, outcomes), Err(ReportError::UnknownSandbox { id: 2 }));
}

#[test]
fn sandbox_named_twice_fails_the_report() {
    let outcomes: Vec<Outcome> = vec![Ok((1, measured(1))), Ok((0, measured(1))), Ok((1, measured(2)))];
    assert_eq!(report(2, outcomes), Err(ReportError::Twice { id: 1 }));
}

#[test]
fn first_missing_sandbox_fails_the_report() {
    let outcomes: Vec<Outcome> = vec![Ok((3, measured(1))), Ok((0, measured(1)))];
    assert_eq!(report(4, outcomes), Err(ReportError::Missing { id: 1 }));
    assert_eq!(report(1, vec![]), Err(ReportError::Missing { id: 0 }));
}
