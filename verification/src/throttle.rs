//! The shared rate gate: a token gate that spaces fetch grants by a fixed
//! interval derived from a requests-per-minute budget, combined with a global
//! cooldown deadline that only ever moves forward (last-max-wins).
//!
//! The limiter itself never sleeps: `gate` decides, from the caller's clock
//! reading, the instant at which the fetch may proceed and how long the
//! caller must wait for it.  The surrounding process performs the actual
//! waiting, so every worker shares one `RateGate` value behind its own lock.

use vstd::prelude::*;

verus! {

/// Shared limiter state: all workers pass every fetch attempt through one
/// value of this type.
pub struct RateGate {
    /// Minimum spacing between two grants, in milliseconds: 60000 / rpm.
    pub interval_ms: u64,
    /// Earliest instant (ms since epoch) at which the next token is free.
    pub next_free_ms: u64,
    /// Global cooldown deadline (ms since epoch); no grant before it.
    pub cooldown_until_ms: u64,
}

/// The later of two instants.
pub open spec fn spec_max64(a: u64, b: u64) -> u64 {
    if a >= b {
        a
    } else {
        b
    }
}

/// u64 addition saturating at the largest representable instant.
pub open spec fn spec_cap_add(a: u64, b: u64) -> u64 {
    if a + b <= u64::MAX {
        (a + b) as u64
    } else {
        u64::MAX
    }
}

/// The instant at which a request arriving at `now` is granted: not before
/// `now`, not before the next token is free, and not before the cooldown
/// deadline has passed.
pub open spec fn spec_grant(l: RateGate, now: u64) -> u64 {
    spec_max64(spec_max64(now, l.next_free_ms), l.cooldown_until_ms)
}

/// The limiter state after a grant: the next token is one interval after the
/// grant instant.
pub open spec fn spec_after_grant(l: RateGate, now: u64) -> RateGate {
    RateGate { next_free_ms: spec_cap_add(spec_grant(l, now), l.interval_ms), ..l }
}

/// Builds the shared limiter for a requests-per-minute budget.  A budget of
/// zero is treated as one request per minute.  The token spacing rounds the
/// division up, so the aggregate rate never exceeds the budget even when
/// the budget does not divide a minute evenly.
pub fn make_limiter(rpm: u32) -> (l: RateGate)
    ensures
        l.interval_ms == ({
            let r = if rpm == 0 { 1int } else { rpm as int };
            (60000 + r - 1) / r
        }),
        l.next_free_ms == 0,
        l.cooldown_until_ms == 0,
{
    let r: u64 = if rpm == 0 {
        1
    } else {
        rpm as u64
    };
    RateGate { interval_ms: (60000 + r - 1) / r, next_free_ms: 0, cooldown_until_ms: 0 }
}

/// Acquires one fetch grant.  Returns how many milliseconds the caller must
/// wait from `now_ms` before navigating; the wait covers both the token
/// spacing and any active cooldown.  Never fails, only delays.
pub fn gate(l: &mut RateGate, now_ms: u64) -> (wait_ms: u64)
    ensures
        now_ms + wait_ms == spec_grant(*old(l), now_ms),
        *final(l) == spec_after_grant(*old(l), now_ms),
{
    let grant = {
        let a = if now_ms >= l.next_free_ms {
            now_ms
        } else {
            l.next_free_ms
        };
        if a >= l.cooldown_until_ms {
            a
        } else {
            l.cooldown_until_ms
        }
    };
    l.next_free_ms = if grant <= u64::MAX - l.interval_ms {
        grant + l.interval_ms
    } else {
        u64::MAX
    };
    grant - now_ms
}

/// The cooldown deadline after extending it by `secs` seconds at instant
/// `now_ms`: the later of the existing deadline and `now_ms + secs * 1000`.
pub open spec fn spec_extend_cooldown(l: RateGate, now_ms: u64, secs: u64) -> RateGate {
    let want = spec_cap_add(now_ms, spec_cap_mul_1000(secs));
    RateGate { cooldown_until_ms: spec_max64(l.cooldown_until_ms, want), ..l }
}

/// `secs * 1000` as u64, saturating.
pub open spec fn spec_cap_mul_1000(secs: u64) -> u64 {
    if secs * 1000 <= u64::MAX {
        (secs * 1000) as u64
    } else {
        u64::MAX
    }
}

/// Extends the global cooldown so that no fetch is granted for the next
/// `secs` seconds.  Monotonic: the deadline is set to `now + secs` only if
/// that is later than the current deadline, and it never regresses.
pub fn set_cooldown_secs(l: &mut RateGate, now_ms: u64, secs: u64)
    ensures
        *final(l) == spec_extend_cooldown(*old(l), now_ms, secs),
        final(l).cooldown_until_ms >= old(l).cooldown_until_ms,
{
    let delta: u64 = if secs <= u64::MAX / 1000 {
        secs * 1000
    } else {
        u64::MAX
    };
    let want: u64 = if now_ms <= u64::MAX - delta {
        now_ms + delta
    } else {
        u64::MAX
    };
    if want > l.cooldown_until_ms {
        l.cooldown_until_ms = want;
    }
    proof {
        assert(secs <= u64::MAX / 1000 ==> secs * 1000 <= u64::MAX) by (nonlinear_arith);
        assert(secs > u64::MAX / 1000 ==> secs * 1000 > u64::MAX) by (nonlinear_arith);
    }
}

/// Law: extending the cooldown is last-max-wins, not last-write-wins.  Two
/// extensions at the same instant commute, and the surviving deadline is the
/// one computed from the larger value; a later smaller extension never
/// regresses the deadline.
pub proof fn lemma_cooldown_last_max_wins(l: RateGate, now_ms: u64, a: u64, b: u64)
    ensures
        spec_extend_cooldown(spec_extend_cooldown(l, now_ms, a), now_ms, b)
            == spec_extend_cooldown(spec_extend_cooldown(l, now_ms, b), now_ms, a),
        a <= b ==> spec_extend_cooldown(spec_extend_cooldown(l, now_ms, b), now_ms, a)
            == spec_extend_cooldown(l, now_ms, b),
{
    assert(a <= b ==> spec_cap_mul_1000(a) <= spec_cap_mul_1000(b)) by (nonlinear_arith);
}

/// The limiter state after the first `k` of a run of sequential acquisitions,
/// the i-th arriving at instant `arrivals[i]`.
pub open spec fn spec_state_at(l: RateGate, arrivals: Seq<u64>, k: int) -> RateGate
    decreases k,
{
    if k <= 0 {
        l
    } else {
        spec_after_grant(spec_state_at(l, arrivals, k - 1), arrivals[k - 1])
    }
}

/// The grant instant of the k-th acquisition in such a run.
pub open spec fn spec_grant_at(l: RateGate, arrivals: Seq<u64>, k: int) -> u64 {
    spec_grant(spec_state_at(l, arrivals, k), arrivals[k])
}

/// Law: the token gate enforces the configured rate.  In any run of
/// sequential acquisitions through one gate, the j-th grant comes at least
/// `(j - i) * interval` milliseconds after the i-th, so `k` acquisitions
/// span at least `(k - 1) * 60000 / rpm` milliseconds in aggregate.  (The
/// one exception is the unreachable saturation point of the clock itself,
/// excluded by the hypothesis on the j-th grant.)
pub proof fn lemma_token_rate(l: RateGate, arrivals: Seq<u64>, i: int, j: int)
    requires
        0 <= i <= j < arrivals.len(),
        spec_grant_at(l, arrivals, j) < u64::MAX,
    ensures
        spec_grant_at(l, arrivals, i) + (j - i) * l.interval_ms
            <= spec_grant_at(l, arrivals, j),
    decreases j - i,
{
    assert(spec_state_at(l, arrivals, j).interval_ms == l.interval_ms) by {
        lemma_interval_constant(l, arrivals, j);
    }
    if i == j {
        assert((j - i) * l.interval_ms == 0) by (nonlinear_arith)
            requires i == j;
    } else {
        let gj1 = spec_grant_at(l, arrivals, j - 1);
        let sj = spec_state_at(l, arrivals, j);
        assert(sj == spec_after_grant(spec_state_at(l, arrivals, j - 1), arrivals[j - 1]));
        assert(spec_grant_at(l, arrivals, j) >= sj.next_free_ms);
        assert(sj.next_free_ms == spec_cap_add(gj1, l.interval_ms)) by {
            lemma_interval_constant(l, arrivals, j - 1);
        }
        if gj1 + l.interval_ms > u64::MAX {
            assert(sj.next_free_ms == u64::MAX);
            assert(false);
        }
        assert(spec_grant_at(l, arrivals, j) >= gj1 + l.interval_ms);
        assert(gj1 < u64::MAX);
        lemma_token_rate(l, arrivals, i, j - 1);
        assert((j - i) * l.interval_ms == (j - 1 - i) * l.interval_ms + l.interval_ms)
            by (nonlinear_arith);
    }
}

proof fn lemma_interval_constant(l: RateGate, arrivals: Seq<u64>, k: int)
    ensures
        spec_state_at(l, arrivals, k).interval_ms == l.interval_ms,
    decreases (if k > 0 { k } else { 0 }),
{
    if k > 0 {
        lemma_interval_constant(l, arrivals, k - 1);
    }
}

/// Relies on std's SystemTime: seconds of wall-clock time since the Unix
/// epoch (zero if the clock reads before the epoch).  Nothing is assumed of
/// the value: callers treat the instant as an arbitrary input.
#[verifier::external_body]
pub fn now_secs() -> u64 {
    std::time::SystemTime::now()
        .duration_since(std::time::UNIX_EPOCH)
        .map(|d| d.as_secs())
        .unwrap_or(0)
}

/// Relies on std's SystemTime: milliseconds of wall-clock time since the
/// Unix epoch (zero if the clock reads before the epoch).  Nothing is
/// assumed of the value: callers treat the instant as an arbitrary input.
#[verifier::external_body]
pub fn now_millis() -> u64 {
    std::time::SystemTime::now()
        .duration_since(std::time::UNIX_EPOCH)
        .map(|d| d.as_millis() as u64)
        .unwrap_or(0)
}

} // verus!
