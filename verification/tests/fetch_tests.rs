use redscan::fetch::{backoff_ms, FetchOutcome, PoliteFetcher, PoliteKnobs};
use redscan::text::{is_rate_limited, session_gone};

fn knobs(attempts: u32, initial_ms: u64, max_ms: u64, deadline_ms: u64) -> PoliteKnobs {
    PoliteKnobs { attempts, initial_ms, max_ms, deadline_ms, verbose: false }
}

#[test]
fn backoff_sequence_is_deterministic() {
    // initial = 800 ms, max = 5000 ms yields 800, 1600, 3200, 5000, 5000, ...
    let expect = [800u64, 1600, 3200, 5000, 5000, 5000];
    for (i, e) in expect.iter().enumerate() {
        assert_eq!(backoff_ms(800, 5000, i as u32), *e);
    }
}

#[test]
fn backoff_initial_above_max_is_capped() {
    assert_eq!(backoff_ms(9000, 5000, 0), 5000);
    assert_eq!(backoff_ms(9000, 5000, 3), 5000);
}

#[test]
fn fetcher_succeeds_immediately_when_not_limited() {
    let mut f = PoliteFetcher::new(knobs(3, 800, 5000, 15000));
    assert!(matches!(f.on_classified(false), FetchOutcome::Success));
    assert_eq!(f.attempt, 0);
}

#[test]
fn fetcher_backs_off_then_gives_up() {
    let mut f = PoliteFetcher::new(knobs(3, 800, 5000, 15000));
    match f.on_classified(true) {
        FetchOutcome::Backoff { sleep_ms, penalty_secs } => {
            assert_eq!(sleep_ms, 800);
            assert_eq!(penalty_secs, 20);
        }
        _ => panic!("expected a backoff"),
    }
    match f.on_classified(true) {
        FetchOutcome::Backoff { sleep_ms, penalty_secs } => {
            assert_eq!(sleep_ms, 1600);
            assert_eq!(penalty_secs, 30);
        }
        _ => panic!("expected a backoff"),
    }
    // the exhausted attempt still carries its backoff and its escalation
    match f.on_classified(true) {
        FetchOutcome::GiveUp { sleep_ms, penalty_secs } => {
            assert_eq!(sleep_ms, 3200);
            assert_eq!(penalty_secs, 40);
        }
        _ => panic!("expected the machine to give up"),
    }
}

#[test]
fn giving_up_still_escalates_the_cooldown() {
    // Even with a single attempt the rate-limited classification extends
    // the shared cooldown by the base penalty before the machine gives up.
    let mut f = PoliteFetcher::new(knobs(1, 800, 5000, 15000));
    match f.on_classified(true) {
        FetchOutcome::GiveUp { sleep_ms, penalty_secs } => {
            assert_eq!(sleep_ms, 800);
            assert_eq!(penalty_secs, 20);
        }
        _ => panic!("expected the machine to give up"),
    }
}

#[test]
fn fetcher_recovers_after_backoff() {
    let mut f = PoliteFetcher::new(knobs(3, 800, 5000, 15000));
    assert!(matches!(f.on_classified(true), FetchOutcome::Backoff { .. }));
    assert!(matches!(f.on_classified(false), FetchOutcome::Success));
}

#[test]
fn fetcher_total_backoff_bounded_by_deadline() {
    let mut f = PoliteFetcher::new(knobs(5, 800, 5000, 1000));
    match f.on_classified(true) {
        FetchOutcome::Backoff { sleep_ms, .. } => assert_eq!(sleep_ms, 800),
        _ => panic!("expected a backoff"),
    }
    match f.on_classified(true) {
        // Only 200 ms of the overall deadline remain.
        FetchOutcome::Backoff { sleep_ms, .. } => assert_eq!(sleep_ms, 200),
        _ => panic!("expected a backoff"),
    }
}

#[test]
fn rate_limit_classifier_matches_known_signals() {
    assert!(is_rate_limited("429 Too Many Requests", ""));
    assert!(is_rate_limited("", "please stop: TOO MANY REQUESTS"));
    assert!(is_rate_limited("Error 429", "all fine"));
    assert!(!is_rate_limited("welcome", "hello world"));
}

#[test]
fn session_loss_classifier_matches_known_signals() {
    assert!(session_gone("chrome failed: Invalid Session ID (driver gone)"));
    assert!(session_gone("SESSION DELETED by remote host"));
    assert!(session_gone("browser not connected to DevTools"));
    assert!(!session_gone("navigation timeout after 30s"));
}
