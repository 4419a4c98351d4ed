//! Derived metric rows: per-entity deltas between the snapshot written by
//! the scan just completed and the entity's most recent snapshot from a
//! strictly earlier scan, with per-hour velocities and, for posts, a
//! composite virality score.
//!
//! Velocities are exact rationals (`Ratio`), not floating point: a velocity
//! of thirty points per hour is the ratio `delta * 3600 / dt` with numerator
//! `delta * 3600` and denominator `dt`.

use vstd::prelude::*;
use crate::store::{Store, PostSnapshot, CommentSnapshot, unique_by};
use crate::models::CommentRow;

verus! {

/// An exact non-negative-denominator rational.  Two ratios denote the same
/// velocity when they cross-multiply equal; `represents` states which exact
/// value a ratio stands for.
#[derive(Debug, Clone, Copy, PartialEq, Eq, Structural)]
pub struct Ratio {
    pub num: i128,
    pub den: i128,
}

impl Ratio {
    /// The ratio denotes a definite value only with a positive denominator.
    pub open spec fn wf(self) -> bool {
        self.den > 0
    }

    /// The ratio stands for exactly the integer `v`.
    pub open spec fn represents_int(self, v: int) -> bool {
        self.num == v * self.den
    }

    /// Whether this ratio equals the whole number `v`; used to check derived
    /// velocities against expected per-hour values.
    pub fn equals_int(&self, v: i64) -> (r: bool)
        requires
            1 <= self.den <= u64::MAX as i128,
        ensures
            r == self.represents_int(v as int),
    {
        proof {
            assert((v as i128) * self.den <= i128::MAX && i128::MIN <= (v as i128) * self.den)
                by (nonlinear_arith)
                requires
                    1 <= self.den <= u64::MAX as i128,
                    i64::MIN as i128 <= v as i128 <= i64::MAX as i128;
        }
        self.num == (v as i128) * self.den
    }
}

/// The derived metric row for one post in one scan.  `prev` fields describe
/// the most recent snapshot of the same post from a strictly earlier scan;
/// the row exists only when such a snapshot exists.
#[derive(Debug, Clone)]
pub struct PostMetric {
    pub post_id: String,
    pub scan_id: i64,
    pub score: Option<i64>,
    pub num_comments: Option<i64>,
    pub prev_scan_id: i64,
    pub prev_score: Option<i64>,
    pub prev_num_comments: Option<i64>,
    /// Elapsed seconds between the two sightings, measured on the post's own
    /// content timestamps; absent when either sighting lacks one.
    pub dt_seconds: Option<i128>,
    pub score_delta: Option<i128>,
    pub comments_delta: Option<i128>,
    /// Score change per hour; defined only when `dt_seconds` is positive and
    /// both scores are present.
    pub score_vph: Option<Ratio>,
    pub comments_vph: Option<Ratio>,
    /// `0.6 * score_vph + 0.4 * comments_vph`, an undefined velocity term
    /// counting as zero; always defined.
    pub virality: Ratio,
}

/// The derived metric row for one comment in one scan, keyed back to its
/// owning post; symmetric to `PostMetric` but with no composite score.
#[derive(Debug, Clone)]
pub struct CommentMetric {
    pub comment_id: String,
    pub post_id: String,
    pub scan_id: i64,
    pub score: Option<i64>,
    pub prev_scan_id: i64,
    pub prev_score: Option<i64>,
    pub dt_seconds: Option<i128>,
    pub score_delta: Option<i128>,
    pub score_vph: Option<Ratio>,
}

// ---------------------------------------------------------------------------
// The previous-snapshot join.
// ---------------------------------------------------------------------------

/// The most recent snapshot of post `pid` from a scan strictly earlier than
/// `scan`, if any.
pub open spec fn spec_prev_post_snapshot(
    s: Seq<PostSnapshot>,
    pid: Seq<char>,
    scan: i64,
) -> Option<PostSnapshot>
    decreases s.len(),
{
    if s.len() == 0 {
        None
    } else {
        let rest = spec_prev_post_snapshot(s.drop_last(), pid, scan);
        let c = s.last();
        if c.post_id@ == pid && c.scan_id < scan {
            match rest {
                None => Some(c),
                Some(p) => if c.scan_id >= p.scan_id {
                    Some(c)
                } else {
                    Some(p)
                },
            }
        } else {
            rest
        }
    }
}

/// The most recent snapshot of comment `cid` from a scan strictly earlier
/// than `scan`, if any.
pub open spec fn spec_prev_comment_snapshot(
    s: Seq<CommentSnapshot>,
    cid: Seq<char>,
    scan: i64,
) -> Option<CommentSnapshot>
    decreases s.len(),
{
    if s.len() == 0 {
        None
    } else {
        let rest = spec_prev_comment_snapshot(s.drop_last(), cid, scan);
        let c = s.last();
        if c.comment_id@ == cid && c.scan_id < scan {
            match rest {
                None => Some(c),
                Some(p) => if c.scan_id >= p.scan_id {
                    Some(c)
                } else {
                    Some(p)
                },
            }
        } else {
            rest
        }
    }
}

fn find_prev_post_snapshot(snaps: &Vec<PostSnapshot>, pid: &String, scan: i64) -> (r: Option<
    usize,
>)
    ensures
        match r {
            Some(i) => 0 <= i < snaps@.len() && spec_prev_post_snapshot(snaps@, pid@, scan)
                == Some(snaps@[i as int]),
            None => spec_prev_post_snapshot(snaps@, pid@, scan) is None,
        },
{
    let n = snaps.len();
    let mut best: Option<usize> = None;
    let mut i: usize = 0;
    while i < n
        invariant
            n == snaps@.len(),
            i <= n,
            match best {
                Some(b) => b < i && spec_prev_post_snapshot(snaps@.take(i as int), pid@, scan)
                    == Some(snaps@[b as int]),
                None => spec_prev_post_snapshot(snaps@.take(i as int), pid@, scan) is None,
            },
        decreases n - i,
    {
        proof {
            assert(snaps@.take(i + 1).drop_last() =~= snaps@.take(i as int));
            assert(snaps@.take(i + 1).last() == snaps@[i as int]);
        }
        let cand_ok = snaps[i].post_id == *pid && snaps[i].scan_id < scan;
        if cand_ok {
            best = match best {
                None => Some(i),
                Some(b) => if snaps[i].scan_id >= snaps[b].scan_id {
                    Some(i)
                } else {
                    Some(b)
                },
            };
        }
        i += 1;
    }
    proof {
        assert(snaps@.take(n as int) =~= snaps@);
    }
    best
}

fn find_prev_comment_snapshot(snaps: &Vec<CommentSnapshot>, cid: &String, scan: i64) -> (r: Option<
    usize,
>)
    ensures
        match r {
            Some(i) => 0 <= i < snaps@.len() && spec_prev_comment_snapshot(snaps@, cid@, scan)
                == Some(snaps@[i as int]),
            None => spec_prev_comment_snapshot(snaps@, cid@, scan) is None,
        },
{
    let n = snaps.len();
    let mut best: Option<usize> = None;
    let mut i: usize = 0;
    while i < n
        invariant
            n == snaps@.len(),
            i <= n,
            match best {
                Some(b) => b < i && spec_prev_comment_snapshot(snaps@.take(i as int), cid@, scan)
                    == Some(snaps@[b as int]),
                None => spec_prev_comment_snapshot(snaps@.take(i as int), cid@, scan) is None,
            },
        decreases n - i,
    {
        proof {
            assert(snaps@.take(i + 1).drop_last() =~= snaps@.take(i as int));
            assert(snaps@.take(i + 1).last() == snaps@[i as int]);
        }
        let cand_ok = snaps[i].comment_id == *cid && snaps[i].scan_id < scan;
        if cand_ok {
            best = match best {
                None => Some(i),
                Some(b) => if snaps[i].scan_id >= snaps[b].scan_id {
                    Some(i)
                } else {
                    Some(b)
                },
            };
        }
        i += 1;
    }
    proof {
        assert(snaps@.take(n as int) =~= snaps@);
    }
    best
}

// ---------------------------------------------------------------------------
// The delta / velocity / virality formulas.
// ---------------------------------------------------------------------------

/// The difference of two optional counters, widened so it is always exact.
pub open spec fn spec_opt_delta(a: Option<i64>, b: Option<i64>) -> Option<i128> {
    match (a, b) {
        (Some(x), Some(y)) => Some((x - y) as i128),
        _ => None,
    }
}

/// A velocity per hour as an exact ratio: `delta * 3600 / dt`, defined only
/// for a positive elapsed time and a present delta.
pub open spec fn spec_vph(delta: Option<i128>, dt: Option<i128>) -> Option<Ratio> {
    match dt {
        Some(d) => if d > 0 {
            match delta {
                Some(x) => Some(Ratio { num: (x * 3600) as i128, den: d }),
                None => None,
            }
        } else {
            None
        },
        None => None,
    }
}

/// The composite virality score `0.6 * score_vph + 0.4 * comments_vph`,
/// with an undefined velocity term counting as zero; always defined.
/// Both velocities share the denominator `dt`, so the composite is the exact
/// ratio `(3 * score_delta + 2 * comments_delta) * 720 / dt`.
pub open spec fn spec_virality(sd: Option<i128>, cd: Option<i128>, dt: Option<i128>) -> Ratio {
    match dt {
        Some(d) => if d > 0 {
            let s0: i128 = match sd {
                Some(x) => x,
                None => 0,
            };
            let c0: i128 = match cd {
                Some(x) => x,
                None => 0,
            };
            Ratio { num: ((3 * s0 + 2 * c0) * 720) as i128, den: d }
        } else {
            Ratio { num: 0, den: 1 }
        },
        None => Ratio { num: 0, den: 1 },
    }
}

/// The derived metric row for a post snapshot and its previous snapshot.
/// The elapsed time is measured on the post's own content timestamps, not on
/// the two scans' wall clocks.
pub open spec fn spec_post_metric(cur: PostSnapshot, prev: PostSnapshot) -> PostMetric {
    let dt = spec_opt_delta(cur.created_utc, prev.created_utc);
    let sd = spec_opt_delta(cur.score, prev.score);
    let cd = spec_opt_delta(cur.num_comments, prev.num_comments);
    PostMetric {
        post_id: cur.post_id,
        scan_id: cur.scan_id,
        score: cur.score,
        num_comments: cur.num_comments,
        prev_scan_id: prev.scan_id,
        prev_score: prev.score,
        prev_num_comments: prev.num_comments,
        dt_seconds: dt,
        score_delta: sd,
        comments_delta: cd,
        score_vph: spec_vph(sd, dt),
        comments_vph: spec_vph(cd, dt),
        virality: spec_virality(sd, cd, dt),
    }
}

/// The derived metric row for a comment snapshot, its previous snapshot, and
/// the owning post id denormalized from the comment table.
pub open spec fn spec_comment_metric(
    cur: CommentSnapshot,
    prev: CommentSnapshot,
    post_id: String,
) -> CommentMetric {
    let dt = spec_opt_delta(cur.created_utc, prev.created_utc);
    let sd = spec_opt_delta(cur.score, prev.score);
    CommentMetric {
        comment_id: cur.comment_id,
        post_id,
        scan_id: cur.scan_id,
        score: cur.score,
        prev_scan_id: prev.scan_id,
        prev_score: prev.score,
        dt_seconds: dt,
        score_delta: sd,
        score_vph: spec_vph(sd, dt),
    }
}

fn opt_delta(a: Option<i64>, b: Option<i64>) -> (r: Option<i128>)
    ensures
        r == spec_opt_delta(a, b),
{
    match (a, b) {
        (Some(x), Some(y)) => Some(x as i128 - y as i128),
        _ => None,
    }
}

fn vph(delta: Option<i128>, dt: Option<i128>) -> (r: Option<Ratio>)
    requires
        delta matches Some(x) ==> -(u64::MAX as i128) <= x <= u64::MAX as i128,
    ensures
        r == spec_vph(delta, dt),
{
    match dt {
        Some(d) => if d > 0 {
            match delta {
                Some(x) => Some(Ratio { num: x * 3600, den: d }),
                None => None,
            }
        } else {
            None
        },
        None => None,
    }
}

fn make_post_metric(cur: &PostSnapshot, prev: &PostSnapshot) -> (m: PostMetric)
    ensures
        m == spec_post_metric(*cur, *prev),
{
    let dt = opt_delta(cur.created_utc, prev.created_utc);
    let sd = opt_delta(cur.score, prev.score);
    let cd = opt_delta(cur.num_comments, prev.num_comments);
    let virality = match dt {
        Some(d) => if d > 0 {
            let s0: i128 = match sd {
                Some(x) => x,
                None => 0,
            };
            let c0: i128 = match cd {
                Some(x) => x,
                None => 0,
            };
            Ratio { num: (3 * s0 + 2 * c0) * 720, den: d }
        } else {
            Ratio { num: 0, den: 1 }
        },
        None => Ratio { num: 0, den: 1 },
    };
    PostMetric {
        post_id: cur.post_id.clone(),
        scan_id: cur.scan_id,
        score: cur.score,
        num_comments: cur.num_comments,
        prev_scan_id: prev.scan_id,
        prev_score: prev.score,
        prev_num_comments: prev.num_comments,
        dt_seconds: dt,
        score_delta: sd,
        comments_delta: cd,
        score_vph: vph(sd, dt),
        comments_vph: vph(cd, dt),
        virality,
    }
}

fn make_comment_metric(cur: &CommentSnapshot, prev: &CommentSnapshot, post_id: String) -> (m:
    CommentMetric)
    ensures
        m == spec_comment_metric(*cur, *prev, post_id),
{
    let dt = opt_delta(cur.created_utc, prev.created_utc);
    let sd = opt_delta(cur.score, prev.score);
    CommentMetric {
        comment_id: cur.comment_id.clone(),
        post_id,
        scan_id: cur.scan_id,
        score: cur.score,
        prev_scan_id: prev.scan_id,
        prev_score: prev.score,
        dt_seconds: dt,
        score_delta: sd,
        score_vph: vph(sd, dt),
    }
}

// ---------------------------------------------------------------------------
// The per-scan metric computation.
// ---------------------------------------------------------------------------

/// The metric rows derived from the first `k` post snapshots for one scan:
/// one row per current-scan snapshot whose post has a strictly earlier
/// snapshot, in table order; first-seen posts are excluded.
pub open spec fn spec_post_metrics_upto(all: Seq<PostSnapshot>, scan: i64, k: int) -> Seq<
    PostMetric,
>
    decreases k,
{
    if k <= 0 {
        Seq::empty()
    } else {
        let rest = spec_post_metrics_upto(all, scan, k - 1);
        let c = all[k - 1];
        if c.scan_id == scan {
            match spec_prev_post_snapshot(all, c.post_id@, scan) {
                Some(p) => rest.push(spec_post_metric(c, p)),
                None => rest,
            }
        } else {
            rest
        }
    }
}

/// All metric rows derived for one scan from the post snapshot table.
pub open spec fn spec_post_metrics_for_scan(all: Seq<PostSnapshot>, scan: i64) -> Seq<PostMetric> {
    spec_post_metrics_upto(all, scan, all.len() as int)
}

/// The first comment row with the given id.
pub open spec fn spec_find_comment_row(s: Seq<CommentRow>, id: Seq<char>) -> Option<CommentRow>
    decreases s.len(),
{
    if s.len() == 0 {
        None
    } else if s[0].id@ == id {
        Some(s[0])
    } else {
        spec_find_comment_row(s.drop_first(), id)
    }
}

/// The metric rows derived from the first `k` comment snapshots for one
/// scan: one row per current-scan snapshot whose comment is present in the
/// comment table and has a strictly earlier snapshot.
pub open spec fn spec_comment_metrics_upto(
    all: Seq<CommentSnapshot>,
    comments: Seq<CommentRow>,
    scan: i64,
    k: int,
) -> Seq<CommentMetric>
    decreases k,
{
    if k <= 0 {
        Seq::empty()
    } else {
        let rest = spec_comment_metrics_upto(all, comments, scan, k - 1);
        let c = all[k - 1];
        if c.scan_id == scan {
            match spec_find_comment_row(comments, c.comment_id@) {
                Some(owner) => match spec_prev_comment_snapshot(all, c.comment_id@, scan) {
                    Some(p) => rest.push(spec_comment_metric(c, p, owner.post_id)),
                    None => rest,
                },
                None => rest,
            }
        } else {
            rest
        }
    }
}

/// All metric rows derived for one scan from the comment snapshot table.
pub open spec fn spec_comment_metrics_for_scan(
    all: Seq<CommentSnapshot>,
    comments: Seq<CommentRow>,
    scan: i64,
) -> Seq<CommentMetric> {
    spec_comment_metrics_upto(all, comments, scan, all.len() as int)
}

proof fn lemma_find_comment_row_some(s: Seq<CommentRow>, id: Seq<char>, i: int)
    requires
        unique_by(s, |c: CommentRow| c.id@),
        0 <= i < s.len(),
        s[i].id@ == id,
    ensures
        spec_find_comment_row(s, id) == Some(s[i]),
    decreases s.len(),
{
    if s[0].id@ == id {
        let key = |c: CommentRow| c.id@;
        if i != 0 {
            assert(key(s[0]) != key(s[i]));
            assert(false);
        }
    } else {
        assert(unique_by(s.drop_first(), |c: CommentRow| c.id@)) by {
            let key = |c: CommentRow| c.id@;
            assert forall|a: int, b: int| 0 <= a < b < s.drop_first().len() implies key(
                s.drop_first()[a],
            ) != key(s.drop_first()[b]) by {
                assert(s.drop_first()[a] == s[a + 1]);
                assert(s.drop_first()[b] == s[b + 1]);
            }
        }
        lemma_find_comment_row_some(s.drop_first(), id, i - 1);
    }
}

proof fn lemma_find_comment_row_none(s: Seq<CommentRow>, id: Seq<char>)
    requires
        forall|j: int| 0 <= j < s.len() ==> (#[trigger] s[j]).id@ != id,
    ensures
        spec_find_comment_row(s, id) is None,
    decreases s.len(),
{
    if s.len() > 0 {
        assert(forall|j: int|
            0 <= j < s.drop_first().len() ==> (#[trigger] s.drop_first()[j]).id@ != id);
        lemma_find_comment_row_none(s.drop_first(), id);
    }
}

/// Derives and appends the post metric rows for the scan just completed.
/// Runs strictly after all snapshots for that scan are written.  Idempotent
/// per scan: when rows for this scan already exist the store is unchanged.
#[verifier::loop_isolation(false)]
pub fn compute_post_metrics(store: &mut Store, scan_id: i64)
    requires
        old(store).wf(),
    ensures
        final(store).wf(),
        *final(store) == (Store { post_metrics: final(store).post_metrics, ..*old(store) }),
        (exists|i: int|
            0 <= i < old(store).post_metrics@.len() && (#[trigger] old(
                store,
            ).post_metrics@[i]).scan_id == scan_id) ==> *final(store) == *old(store),
        (forall|i: int|
            0 <= i < old(store).post_metrics@.len() ==> (#[trigger] old(
                store,
            ).post_metrics@[i]).scan_id != scan_id) ==> final(store).post_metrics@ == old(
            store,
        ).post_metrics@ + spec_post_metrics_for_scan(old(store).post_snapshots@, scan_id),
{
    let mg = store.post_metrics.len();
    let mut g: usize = 0;
    while g < mg
        invariant
            mg == store.post_metrics@.len(),
            g <= mg,
            forall|j: int|
                0 <= j < g ==> (#[trigger] store.post_metrics@[j]).scan_id != scan_id,
        decreases mg - g,
    {
        if store.post_metrics[g].scan_id == scan_id {
            return ;
        }
        g += 1;
    }
    let n = store.post_snapshots.len();
    let mut out: Vec<PostMetric> = Vec::new();
    let mut i: usize = 0;
    while i < n
        invariant
            n == store.post_snapshots@.len(),
            i <= n,
            *store == *old(store),
            out@ == spec_post_metrics_upto(store.post_snapshots@, scan_id, i as int),
        decreases n - i,
    {
        if store.post_snapshots[i].scan_id == scan_id {
            let pid = store.post_snapshots[i].post_id.clone();
            match find_prev_post_snapshot(&store.post_snapshots, &pid, scan_id) {
                Some(j) => {
                    let m = make_post_metric_at(&store.post_snapshots, i, j);
                    out.push(m);
                },
                None => {},
            }
        }
        i += 1;
    }
    proof {
        assert(out@ == spec_post_metrics_for_scan(store.post_snapshots@, scan_id));
    }
    store.post_metrics.append(&mut out);
}

fn make_post_metric_at(snaps: &Vec<PostSnapshot>, i: usize, j: usize) -> (m: PostMetric)
    requires
        i < snaps@.len(),
        j < snaps@.len(),
    ensures
        m == spec_post_metric(snaps@[i as int], snaps@[j as int]),
{
    make_post_metric(&snaps[i], &snaps[j])
}

/// Derives and appends the comment metric rows for the scan just completed,
/// keyed back to each comment's owning post; symmetric to the post metrics
/// and equally idempotent per scan.
#[verifier::loop_isolation(false)]
pub fn compute_comment_metrics(store: &mut Store, scan_id: i64)
    requires
        old(store).wf(),
    ensures
        final(store).wf(),
        *final(store) == (Store { comment_metrics: final(store).comment_metrics, ..*old(store) }),
        (exists|i: int|
            0 <= i < old(store).comment_metrics@.len() && (#[trigger] old(
                store,
            ).comment_metrics@[i]).scan_id == scan_id) ==> *final(store) == *old(store),
        (forall|i: int|
            0 <= i < old(store).comment_metrics@.len() ==> (#[trigger] old(
                store,
            ).comment_metrics@[i]).scan_id != scan_id) ==> final(store).comment_metrics@ == old(
            store,
        ).comment_metrics@ + spec_comment_metrics_for_scan(
            old(store).comment_snapshots@,
            old(store).comments@,
            scan_id,
        ),
{
    let mg = store.comment_metrics.len();
    let mut g: usize = 0;
    while g < mg
        invariant
            mg == store.comment_metrics@.len(),
            g <= mg,
            forall|j: int|
                0 <= j < g ==> (#[trigger] store.comment_metrics@[j]).scan_id != scan_id,
        decreases mg - g,
    {
        if store.comment_metrics[g].scan_id == scan_id {
            return ;
        }
        g += 1;
    }
    let n = store.comment_snapshots.len();
    let mut out: Vec<CommentMetric> = Vec::new();
    let mut i: usize = 0;
    while i < n
        invariant
            n == store.comment_snapshots@.len(),
            i <= n,
            *store == *old(store),
            out@ == spec_comment_metrics_upto(
                store.comment_snapshots@,
                store.comments@,
                scan_id,
                i as int,
            ),
        decreases n - i,
    {
        if store.comment_snapshots[i].scan_id == scan_id {
            let cid = store.comment_snapshots[i].comment_id.clone();
            match crate::store::find_comment(&store.comments, &cid) {
                Some(w) => {
                    proof {
                        lemma_find_comment_row_some(store.comments@, cid@, w as int);
                    }
                    match find_prev_comment_snapshot(&store.comment_snapshots, &cid, scan_id) {
                        Some(j) => {
                            let post_id = index_comment_post_id(&store.comments, w);
                            let m = make_comment_metric_at(&store.comment_snapshots, i, j, post_id);
                            out.push(m);
                        },
                        None => {},
                    }
                },
                None => {
                    proof {
                        lemma_find_comment_row_none(store.comments@, cid@);
                    }
                },
            }
        }
        i += 1;
    }
    proof {
        assert(out@ == spec_comment_metrics_for_scan(
            store.comment_snapshots@,
            store.comments@,
            scan_id,
        ));
    }
    store.comment_metrics.append(&mut out);
}

fn index_comment_post_id(comments: &Vec<CommentRow>, w: usize) -> (r: String)
    requires
        w < comments@.len(),
    ensures
        r == comments@[w as int].post_id,
{
    comments[w].post_id.clone()
}

fn make_comment_metric_at(
    snaps: &Vec<CommentSnapshot>,
    i: usize,
    j: usize,
    post_id: String,
) -> (m: CommentMetric)
    requires
        i < snaps@.len(),
        j < snaps@.len(),
    ensures
        m == spec_comment_metric(snaps@[i as int], snaps@[j as int], post_id),
{
    make_comment_metric(&snaps[i], &snaps[j], post_id)
}

} // verus!
