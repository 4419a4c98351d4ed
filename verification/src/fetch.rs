//! The per-navigation retry state machine.  One `PoliteFetcher` drives one
//! navigation: each attempt passes through the shared rate gate, navigates,
//! and classifies the result; a rate-limited attempt escalates the global
//! cooldown and backs off exponentially before the next try.
//!
//! The machine only decides.  The surrounding process navigates, sleeps for
//! the returned intervals, and feeds each attempt's classification back in.

use vstd::prelude::*;

verus! {

/// Retry configuration for one navigation.
#[derive(Clone, Copy, Debug)]
pub struct PoliteKnobs {
    /// Number of attempts before giving up.
    pub attempts: u32,
    /// First backoff interval, in milliseconds.
    pub initial_ms: u64,
    /// Ceiling on any single backoff interval, in milliseconds.
    pub max_ms: u64,
    /// Ceiling on the total time spent backing off for one navigation.
    pub deadline_ms: u64,
    /// Whether the process should log retries.
    pub verbose: bool,
}

/// The backoff interval for the given zero-based attempt index: the initial
/// interval doubled once per earlier attempt, capped at `max_ms`.
pub open spec fn spec_backoff_ms(initial_ms: u64, max_ms: u64, attempt: nat) -> u64
    decreases attempt,
{
    if attempt == 0 {
        if initial_ms <= max_ms {
            initial_ms
        } else {
            max_ms
        }
    } else {
        let prev = spec_backoff_ms(initial_ms, max_ms, (attempt - 1) as nat);
        if 2 * prev > max_ms {
            max_ms
        } else {
            (2 * prev) as u64
        }
    }
}

proof fn lemma_backoff_le_max(initial_ms: u64, max_ms: u64, attempt: nat)
    ensures
        spec_backoff_ms(initial_ms, max_ms, attempt) <= max_ms,
    decreases attempt,
{
    if attempt > 0 {
        lemma_backoff_le_max(initial_ms, max_ms, (attempt - 1) as nat);
    }
}

/// The backoff interval for an attempt, computed deterministically from the
/// configuration and the attempt index alone.
pub fn backoff_ms(initial_ms: u64, max_ms: u64, attempt: u32) -> (r: u64)
    ensures
        r == spec_backoff_ms(initial_ms, max_ms, attempt as nat),
{
    let mut v: u64 = if initial_ms <= max_ms {
        initial_ms
    } else {
        max_ms
    };
    let mut k: u32 = 0;
    while k < attempt
        invariant
            k <= attempt,
            v == spec_backoff_ms(initial_ms, max_ms, k as nat),
            v <= max_ms,
        decreases attempt - k,
    {
        proof {
            lemma_backoff_le_max(initial_ms, max_ms, (k + 1) as nat);
        }
        v = if v > max_ms - v {
            max_ms
        } else {
            v + v
        };
        k += 1;
    }
    v
}

/// The cooldown penalty for the given zero-based attempt index: a base of 20
/// seconds plus 10 more per attempt already failed.
pub open spec fn spec_penalty_secs(attempt: u32) -> u64 {
    (20 + (attempt as u64) * 10) as u64
}

/// What the retry machine decides after one attempt is classified.
#[derive(Clone, Copy, Debug)]
pub enum FetchOutcome {
    /// The page loaded: stop retrying and report success.
    Success,
    /// Rate-limited: extend the shared cooldown by `penalty_secs`, sleep for
    /// `sleep_ms`, then navigate again.
    Backoff { sleep_ms: u64, penalty_secs: u64 },
    /// Rate-limited with no attempts left: extend the shared cooldown by the
    /// final `penalty_secs`, sleep once more for `sleep_ms`, then report
    /// that the page could not be loaded.  Not an error: the caller decides
    /// what to skip.  The exhausted attempt escalates the shared cooldown
    /// like every other rate-limited attempt.
    GiveUp { sleep_ms: u64, penalty_secs: u64 },
}

/// The retry state for one navigation: how many attempts were classified as
/// rate-limited so far, and how long the machine has asked the caller to
/// sleep in total (bounded by the overall deadline).
pub struct PoliteFetcher {
    pub knobs: PoliteKnobs,
    pub attempt: u32,
    pub slept_ms: u64,
}

impl PoliteFetcher {
    /// The total backoff never exceeds the configured deadline.
    pub open spec fn wf(self) -> bool {
        self.slept_ms <= self.knobs.deadline_ms
    }

    pub fn new(knobs: PoliteKnobs) -> (f: PoliteFetcher)
        ensures
            f.knobs == knobs,
            f.attempt == 0,
            f.slept_ms == 0,
            f.wf(),
    {
        PoliteFetcher { knobs, attempt: 0, slept_ms: 0 }
    }

    /// The backoff interval the machine asks for after its next rate-limited
    /// classification: the attempt's doubled-and-capped interval, shortened
    /// to whatever remains of the overall deadline.
    pub open spec fn next_sleep_ms(self) -> u64 {
        let raw = spec_backoff_ms(self.knobs.initial_ms, self.knobs.max_ms, self.attempt as nat);
        let room = self.knobs.deadline_ms - self.slept_ms;
        if raw <= room {
            raw
        } else {
            room as u64
        }
    }

    /// Feeds in the classification of the attempt that just navigated and
    /// returns the next step.  Success is immediate on any attempt that is
    /// not rate-limited.  Every rate-limited attempt, the exhausted last one
    /// included, yields a backoff interval (doubling, capped per attempt and
    /// bounded overall by the deadline) and a cooldown penalty that grows
    /// with the attempt index; when the configured attempts are exhausted
    /// the machine gives up, still carrying that final interval and penalty.
    pub fn on_classified(&mut self, limited: bool) -> (r: FetchOutcome)
        requires
            old(self).wf(),
        ensures
            final(self).wf(),
            final(self).knobs == old(self).knobs,
            !limited ==> r == FetchOutcome::Success && *final(self) == *old(self),
            limited && old(self).attempt + 1 >= old(self).knobs.attempts ==> r == (
            FetchOutcome::GiveUp {
                sleep_ms: old(self).next_sleep_ms(),
                penalty_secs: spec_penalty_secs(old(self).attempt),
            }) && *final(self) == *old(self),
            limited && old(self).attempt + 1 < old(self).knobs.attempts ==> {
                &&& r == (FetchOutcome::Backoff {
                    sleep_ms: old(self).next_sleep_ms(),
                    penalty_secs: spec_penalty_secs(old(self).attempt),
                })
                &&& final(self).attempt == old(self).attempt + 1
                &&& final(self).slept_ms == old(self).slept_ms + old(self).next_sleep_ms()
            },
    {
        if !limited {
            return FetchOutcome::Success;
        }
        let raw = backoff_ms(self.knobs.initial_ms, self.knobs.max_ms, self.attempt);
        let room = self.knobs.deadline_ms - self.slept_ms;
        let sleep = if raw <= room {
            raw
        } else {
            room
        };
        let penalty: u64 = 20 + (self.attempt as u64) * 10;
        if self.attempt >= u32::MAX || self.attempt + 1 >= self.knobs.attempts {
            return FetchOutcome::GiveUp { sleep_ms: sleep, penalty_secs: penalty };
        }
        self.slept_ms = self.slept_ms + sleep;
        self.attempt = self.attempt + 1;
        FetchOutcome::Backoff { sleep_ms: sleep, penalty_secs: penalty }
    }
}

} // verus!
