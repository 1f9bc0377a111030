use fbpml::rendezvous::{Arrival, Passage, Rendezvous};

#[test]
fn last_arrival_releases_the_round() {
    let mut r = Rendezvous::new(3);
    assert_eq!(r.arrive(), Arrival::Wait { generation: 0 });
    assert_eq!(r.passage(0), Passage::Blocked);
    assert_eq!(r.arrive(), Arrival::Wait { generation: 0 });
    assert_eq!(r.passage(0), Passage::Blocked);
    assert_eq!(r.arrive(), Arrival::Release);
    assert_eq!(r.passage(0), Passage::Open);
}

#[test]
fn rendezvous_serves_one_round_after_the_other() {
    let mut r = Rendezvous::new(2);
    for round in 0..5u64 {
        assert_eq!(r.arrive(), Arrival::Wait { generation: round });
        assert_eq!(r.passage(round), Passage::Blocked);
        assert_eq!(r.arrive(), Arrival::Release);
        assert_eq!(r.passage(round), Passage::Open);
        assert_eq!(r.passage(round + 1), Passage::Blocked);
    }
}

#[test]
fn lone_worker_never_waits() {
    let mut r = Rendezvous::new(1);
    assert_eq!(r.arrive(), Arrival::Release);
    assert_eq!(r.arrive(), Arrival::Release);
    let mut none = Rendezvous::new(0);
    assert_eq!(none.arrive(), Arrival::Release);
}

#[test]
fn cancelled_rendezvous_lets_nobody_wait_or_pass() {
    let mut r = Rendezvous::new(3);
    assert_eq!(r.arrive(), Arrival::Wait { generation: 0 });
    r.cancel();
    assert_eq!(r.passage(0), Passage::Cancelled);
    assert_eq!(r.arrive(), Arrival::Cancelled);
    assert_eq!(r.arrive(), Arrival::Cancelled);
    assert_eq!(r.passage(0), Passage::Cancelled);
}
