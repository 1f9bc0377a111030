use fbpml::liveness::{
    LivenessPoller, PollPhase, ProbeAction, ProbeEvent, BACKOFF_END_MS, BACKOFF_MIN_MS,
    MAX_ATTEMPTS,
};
use rand::rngs::StdRng;
use rand::SeedableRng;

#[test]
fn budget_is_240_attempts_of_400_to_600_milliseconds() {
    assert_eq!(MAX_ATTEMPTS, 240);
    assert_eq!(BACKOFF_MIN_MS, 400);
    assert_eq!(BACKOFF_END_MS, 600);
}

#[test]
fn first_successful_connection_ends_the_wait() {
    let mut rng = StdRng::seed_from_u64(1);
    let mut p = LivenessPoller::new();
    assert_eq!(p.phase(), PollPhase::Idle);
    assert_eq!(p.step(ProbeEvent::Started, &mut rng), Some(ProbeAction::Connect));
    assert_eq!(p.step(ProbeEvent::Connected, &mut rng), Some(ProbeAction::Live));
    assert_eq!(p.phase(), PollPhase::Live);
    assert_eq!(p.failures(), 0);
    assert_eq!(p.slept_millis(), 0);
}

#[test]
fn connection_after_some_refusals_ends_the_wait() {
    let mut rng = StdRng::seed_from_u64(2);
    let mut p = LivenessPoller::new();
    assert_eq!(p.step(ProbeEvent::Started, &mut rng), Some(ProbeAction::Connect));
    for _ in 0..3 {
        assert!(matches!(
            p.step(ProbeEvent::Refused, &mut rng),
            Some(ProbeAction::Sleep { millis }) if (400..600).contains(&millis)
        ));
        assert_eq!(p.step(ProbeEvent::Slept, &mut rng), Some(ProbeAction::Connect));
    }
    assert_eq!(p.step(ProbeEvent::Connected, &mut rng), Some(ProbeAction::Live));
    assert_eq!(p.failures(), 3);
}

#[test]
fn never_accepting_address_times_out_after_240_attempts() {
    let mut rng = StdRng::seed_from_u64(3);
    let mut p = LivenessPoller::new();
    let mut attempts = 0u32;
    let mut slept = 0u64;
    let mut action = p.step(ProbeEvent::Started, &mut rng);
    loop {
        match action {
            Some(ProbeAction::Connect) => {
                attempts += 1;
                action = p.step(ProbeEvent::Refused, &mut rng);
            }
            Some(ProbeAction::Sleep { millis }) => {
                assert!((400..600).contains(&millis));
                slept += millis;
                action = p.step(ProbeEvent::Slept, &mut rng);
            }
            Some(ProbeAction::TimedOut) => break,
            other => panic!("unexpected action {:?}", other),
        }
    }
    assert_eq!(attempts, 240);
    assert_eq!(p.failures(), 240);
    assert_eq!(p.phase(), PollPhase::TimedOut);
    assert_eq!(p.slept_millis(), slept);
    assert!((96_000..144_000).contains(&slept));
}

#[test]
fn waits_differ_from_one_another() {
    let mut rng = StdRng::seed_from_u64(4);
    let mut p = LivenessPoller::new();
    p.step(ProbeEvent::Started, &mut rng);
    let mut seen = Vec::new();
    for _ in 0..50 {
        match p.step(ProbeEvent::Refused, &mut rng) {
            Some(ProbeAction::Sleep { millis }) => seen.push(millis),
            other => panic!("unexpected action {:?}", other),
        }
        p.step(ProbeEvent::Slept, &mut rng);
    }
    assert!(seen.iter().any(|m| *m != seen[0]));
}

#[test]
fn event_out_of_turn_changes_nothing() {
    let mut rng = StdRng::seed_from_u64(5);
    let mut p = LivenessPoller::new();
    assert_eq!(p.step(ProbeEvent::Slept, &mut rng), None);
    assert_eq!(p.step(ProbeEvent::Refused, &mut rng), None);
    assert_eq!(p.phase(), PollPhase::Idle);
    assert_eq!(p.step(ProbeEvent::Started, &mut rng), Some(ProbeAction::Connect));
    assert_eq!(p.step(ProbeEvent::Started, &mut rng), None);
    assert_eq!(p.step(ProbeEvent::Slept, &mut rng), None);
    assert_eq!(p.phase(), PollPhase::Connecting);
    assert_eq!(p.step(ProbeEvent::Connected, &mut rng), Some(ProbeAction::Live));
    assert_eq!(p.step(ProbeEvent::Connected, &mut rng), None);
    assert_eq!(p.step(ProbeEvent::Refused, &mut rng), None);
    assert_eq!(p.phase(), PollPhase::Live);
}
