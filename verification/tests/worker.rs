use backend::worker::{
    check_event, classify_breach_response, parse_u64, retry_after_secs, BreachLookup, LeakWorker,
    WorkerAction, WorkerEvent, MAX_BACKOFF_SECS, POLL_INTERVAL_SECS,
};

#[test]
fn parses_like_std() {
    for s in ["0", "120", "+5", "", "+", "-1", "18446744073709551615", "18446744073709551616", "1a", " 1", "007"] {
        assert_eq!(parse_u64(s.as_bytes()), s.parse::<u64>().ok(), "input {:?}", s);
    }
    assert_eq!(parse_u64(b"120"), Some(120));
    assert_eq!(parse_u64(b"18446744073709551616"), None);
}

#[test]
fn retry_after_header() {
    assert_eq!(retry_after_secs(Some(b"120")), 120);
    assert_eq!(retry_after_secs(Some(b"soon")), 10);
    assert_eq!(retry_after_secs(Some(b"12\x7f")), 10);
    assert_eq!(retry_after_secs(Some(b"")), 10);
    assert_eq!(retry_after_secs(None), 10);
}

#[test]
fn reply_classification() {
    assert_eq!(classify_breach_response(200, None), BreachLookup::Breaches);
    assert_eq!(classify_breach_response(404, Some(b"3")), BreachLookup::NoBreaches);
    assert_eq!(classify_breach_response(429, Some(b"7")), BreachLookup::RateLimited { wait_secs: 7 });
    assert_eq!(classify_breach_response(429, None), BreachLookup::RateLimited { wait_secs: 10 });
    assert_eq!(classify_breach_response(503, None), BreachLookup::Unexpected { status: 503 });
}

#[test]
fn events_from_replies() {
    match check_event(7, BreachLookup::NoBreaches, Err(())) {
        WorkerEvent::Checked { id, breaches } => {
            assert_eq!(id, 7);
            assert!(breaches.is_empty());
        }
        other => panic!("{:?}", other),
    }
    match check_event(7, BreachLookup::Breaches, Ok(vec!["Adobe".to_string()])) {
        WorkerEvent::Checked { breaches, .. } => assert_eq!(breaches, vec!["Adobe".to_string()]),
        other => panic!("{:?}", other),
    }
    assert!(matches!(check_event(7, BreachLookup::Breaches, Err(())), WorkerEvent::CheckFailed));
    assert!(matches!(
        check_event(7, BreachLookup::RateLimited { wait_secs: 9 }, Ok(vec!["ignored".to_string()])),
        WorkerEvent::RateLimited { retry_after_secs: 9 }
    ));
    assert!(matches!(
        check_event(7, BreachLookup::Unexpected { status: 500 }, Err(())),
        WorkerEvent::CheckFailed
    ));
}

fn sleep_of(a: WorkerAction) -> u64 {
    match a {
        WorkerAction::SleepThenPoll { secs } => secs,
        other => panic!("expected a sleep, got {:?}", other),
    }
}

#[test]
fn backoff_doubles_then_caps_and_resets() {
    let mut w = LeakWorker::new();
    assert_eq!(w.backoff_secs(), POLL_INTERVAL_SECS);
    let mut sleeps = Vec::new();
    for _ in 0..12 {
        sleeps.push(sleep_of(w.step(WorkerEvent::CheckFailed)));
    }
    assert_eq!(sleeps, vec![5, 10, 20, 40, 80, 160, 320, 640, 1280, 1800, 1800, 1800]);
    assert_eq!(w.backoff_secs(), MAX_BACKOFF_SECS);
    assert_eq!(sleep_of(w.step(WorkerEvent::RateLimited { retry_after_secs: 42 })), 42);
    assert_eq!(w.backoff_secs(), MAX_BACKOFF_SECS);
    assert_eq!(sleep_of(w.step(WorkerEvent::PollFailed)), 5);
    assert_eq!(sleep_of(w.step(WorkerEvent::NothingPending)), 5);
    match w.step(WorkerEvent::Checked { id: 3, breaches: vec![] }) {
        WorkerAction::StoreThenPoll { id, breaches } => {
            assert_eq!(id, 3);
            assert!(breaches.is_empty());
        }
        other => panic!("{:?}", other),
    }
    assert_eq!(w.backoff_secs(), POLL_INTERVAL_SECS);
    match w.step(WorkerEvent::Pending { id: 9, email: "a@b.c".to_string() }) {
        WorkerAction::CheckEmail { id, email } => {
            assert_eq!(id, 9);
            assert_eq!(email, "a@b.c");
        }
        other => panic!("{:?}", other),
    }
}

#[test]
fn every_round_returns_to_polling() {
    let outcomes = || {
        vec![
            WorkerEvent::Checked { id: 7, breaches: vec!["Adobe".to_string()] },
            WorkerEvent::RateLimited { retry_after_secs: 3 },
            WorkerEvent::CheckFailed,
        ]
    };
    for outcome in outcomes() {
        let mut w = LeakWorker::new();
        match w.step(WorkerEvent::Pending { id: 7, email: "x@y.z".to_string() }) {
            WorkerAction::CheckEmail { id, email } => {
                assert_eq!(id, 7);
                assert_eq!(email, "x@y.z");
            }
            other => panic!("{:?}", other),
        }
        match w.step(outcome) {
            WorkerAction::SleepThenPoll { .. } | WorkerAction::StoreThenPoll { .. } => {}
            other => panic!("round did not return to polling: {:?}", other),
        }
    }
    let mut w = LeakWorker::new();
    assert_eq!(sleep_of(w.step(WorkerEvent::NothingPending)), POLL_INTERVAL_SECS);
}
