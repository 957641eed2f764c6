use backend_supervisor::readiness::{
    begin_wait, is_healthy, wait_ready, Probe, ProbeEvent, POLL_INTERVAL_MS, REQUEST_TIMEOUT_SECS,
};

/// Runs a whole probe; the request after `i` failed ones succeeds exactly
/// if `answer(i)`. Returns the verdict, the requests made and the pauses.
fn probe_with(timeout_secs: u64, answer: impl Fn(u64) -> bool) -> (bool, u64, u64) {
    let mut requests: u64 = 0;
    let mut sleeps: u64 = 0;
    let mut probe = begin_wait(timeout_secs);
    loop {
        match probe {
            Probe::Request { waited } => {
                requests += 1;
                probe = wait_ready(timeout_secs, probe, ProbeEvent::Responded(answer(waited)));
            }
            Probe::Sleep { .. } => {
                sleeps += 1;
                probe = wait_ready(timeout_secs, probe, ProbeEvent::Slept);
            }
            Probe::Done { healthy } => return (healthy, requests, sleeps),
        }
    }
}

#[test]
fn intervals_are_fixed() {
    assert_eq!(REQUEST_TIMEOUT_SECS, 1);
    assert_eq!(POLL_INTERVAL_MS, 300);
}

#[test]
fn success_on_first_attempt_needs_no_pause() {
    assert_eq!(probe_with(20, |_| true), (true, 1, 0));
}

#[test]
fn success_on_third_attempt_pauses_twice() {
    assert_eq!(probe_with(20, |i| i == 2), (true, 3, 2));
}

#[test]
fn success_on_last_attempt_of_the_budget() {
    assert_eq!(probe_with(20, |i| i == 19), (true, 20, 19));
}

#[test]
fn success_after_the_budget_comes_too_late() {
    assert_eq!(probe_with(20, |i| i == 20), (false, 20, 20));
}

#[test]
fn probe_that_always_fails_uses_up_the_budget() {
    assert_eq!(probe_with(5, |_| false), (false, 5, 5));
    assert_eq!(probe_with(20, |_| false), (false, 20, 20));
    assert_eq!(probe_with(1, |_| false), (false, 1, 1));
}

#[test]
fn zero_budget_makes_no_request() {
    assert_eq!(begin_wait(0), Probe::Done { healthy: false });
    assert_eq!(probe_with(0, |_| true), (false, 0, 0));
}

#[test]
fn probe_begins_with_a_request() {
    assert_eq!(begin_wait(20), Probe::Request { waited: 0 });
}

#[test]
fn wait_ready_steps() {
    let due = Probe::Request { waited: 3 };
    assert_eq!(wait_ready(20, due, ProbeEvent::Responded(true)), Probe::Done { healthy: true });
    assert_eq!(wait_ready(20, due, ProbeEvent::Responded(false)), Probe::Sleep { waited: 3 });
    let asleep = Probe::Sleep { waited: 3 };
    assert_eq!(wait_ready(20, asleep, ProbeEvent::Slept), Probe::Request { waited: 4 });
    assert_eq!(wait_ready(4, asleep, ProbeEvent::Slept), Probe::Done { healthy: false });
    let last = Probe::Sleep { waited: 19 };
    assert_eq!(wait_ready(20, last, ProbeEvent::Slept), Probe::Done { healthy: false });
}

#[test]
fn unexpected_events_change_nothing() {
    let due = Probe::Request { waited: 3 };
    assert_eq!(wait_ready(20, due, ProbeEvent::Slept), due);
    let asleep = Probe::Sleep { waited: 3 };
    assert_eq!(wait_ready(20, asleep, ProbeEvent::Responded(true)), asleep);
    let over = Probe::Done { healthy: true };
    assert_eq!(wait_ready(20, over, ProbeEvent::Slept), over);
    assert_eq!(wait_ready(20, over, ProbeEvent::Responded(false)), over);
}

#[test]
fn pause_at_the_largest_count_does_not_overflow() {
    let asleep = Probe::Sleep { waited: u64::MAX };
    assert_eq!(wait_ready(u64::MAX, asleep, ProbeEvent::Slept), Probe::Done { healthy: false });
    let before = Probe::Sleep { waited: u64::MAX - 2 };
    assert_eq!(
        wait_ready(u64::MAX, before, ProbeEvent::Slept),
        Probe::Request { waited: u64::MAX - 1 }
    );
}

#[test]
fn healthy_means_a_response_with_a_code_of_success() {
    assert!(is_healthy(Some(200)));
    assert!(is_healthy(Some(204)));
    assert!(is_healthy(Some(299)));
    assert!(!is_healthy(Some(199)));
    assert!(!is_healthy(Some(300)));
    assert!(!is_healthy(Some(404)));
    assert!(!is_healthy(Some(503)));
    assert!(!is_healthy(Some(u16::MAX)));
    assert!(!is_healthy(None));
}
