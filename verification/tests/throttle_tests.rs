use redscan::throttle::{gate, make_limiter, now_millis, now_secs, set_cooldown_secs};

#[test]
fn limiter_interval_from_rpm() {
    let l = make_limiter(60);
    assert_eq!(l.interval_ms, 1000);
    let l = make_limiter(24);
    assert_eq!(l.interval_ms, 2500);
    let l = make_limiter(0);
    assert_eq!(l.interval_ms, 60000);
    // a budget that does not divide a minute rounds the spacing up
    let l = make_limiter(7);
    assert_eq!(l.interval_ms, 8572);
}

#[test]
fn sequential_acquisitions_respect_rate() {
    // With rpm = 60 the token interval is one second: k sequential
    // acquisitions at the same instant are told to wait 0, 1, 2, ... seconds,
    // so in aggregate they span at least (k - 1) * 60 / rpm seconds.
    let mut l = make_limiter(60);
    let mut total: u64 = 0;
    let mut waits = Vec::new();
    for _ in 0..4 {
        let w = gate(&mut l, 0);
        waits.push(w);
        total = total.max(w);
    }
    assert_eq!(waits, vec![0, 1000, 2000, 3000]);
    assert!(total >= 3 * 1000);
}

#[test]
fn gate_waits_for_cooldown() {
    let mut l = make_limiter(60);
    set_cooldown_secs(&mut l, 1000, 20);
    let w = gate(&mut l, 1000);
    assert_eq!(w, 20000);
}

#[test]
fn cooldown_sequence_never_regresses() {
    // Extending with [5, 20, 10] leaves the deadline at now + 20 s: the
    // third, smaller extension does not regress it.
    let mut l = make_limiter(24);
    let now = 1000;
    set_cooldown_secs(&mut l, now, 5);
    assert_eq!(l.cooldown_until_ms, 1000 + 5000);
    set_cooldown_secs(&mut l, now, 20);
    assert_eq!(l.cooldown_until_ms, 1000 + 20000);
    set_cooldown_secs(&mut l, now, 10);
    assert_eq!(l.cooldown_until_ms, 1000 + 20000);
}

#[test]
fn clock_reads_are_plausible() {
    // The process clock reads after the year 2020 in both units.
    assert!(now_secs() > 1_600_000_000);
    assert!(now_millis() > 1_600_000_000_000);
}
