//! Worker orchestration: deterministic partitioning of the community list
//! across workers, the per-worker crawl state machine, and the write-funnel
//! message protocol with its single-writer application to the store.
//!
//! A worker owns one browser session and an assigned slice of communities.
//! The machine here decides what to fetch next and how to react to each
//! outcome (skip an item, abandon a community, or abort everything on a lost
//! session); the surrounding process performs the fetches and feeds the
//! outcomes back in.

use vstd::prelude::*;
use vstd::string::StringExecFns;
use vstd::arithmetic::div_mod::lemma_fundamental_div_mod;
use crate::models::{PostRow, CommentRow};
use crate::store::{Store, StoredPost, PostSnapshot, CommentSnapshot, ImageRow};
use crate::store::{
    spec_upsert_post, spec_upsert_comment, spec_upsert_image, spec_upsert_post_snapshot,
    spec_upsert_comment_snapshot, spec_upsert_subreddit, spec_subreddit_id, upsert_subreddit,
    upsert_post, upsert_comment, ensure_image, snapshot_post, snapshot_comment,
};

verus! {

// ---------------------------------------------------------------------------
// Partitioning.
// ---------------------------------------------------------------------------

/// The pseudo-random permutation that shuffling a list with the given seed
/// produces; a function of the list and the seed alone, so two runs with one
/// seed shuffle identically.
pub uninterp spec fn shuffled_of(s: Seq<String>, seed: u64) -> Seq<String>;

/// Relies on rand: a StdRng seeded from the given value driving
/// SliceRandom::shuffle, which permutes the slice in place.  The seeded
/// generator is deterministic, so the result depends on the elements and
/// the seed alone, and it holds exactly the elements given.
#[verifier::external_body]
fn shuffle_with_seed(v: &mut Vec<String>, seed: u64)
    ensures
        final(v)@ == shuffled_of(old(v)@, seed),
        final(v)@.to_multiset() == old(v)@.to_multiset(),
{
    let mut rng = <rand::rngs::StdRng as rand::SeedableRng>::seed_from_u64(seed);
    rand::seq::SliceRandom::shuffle(v.as_mut_slice(), &mut rng);
}

/// The concatenation of a sequence of slices.
pub open spec fn spec_slices_content(s: Seq<Vec<String>>) -> Seq<String>
    decreases s.len(),
{
    if s.len() == 0 {
        Seq::empty()
    } else {
        s[0]@ + spec_slices_content(s.drop_first())
    }
}

proof fn lemma_slices_content_push(s: Seq<Vec<String>>, v: Vec<String>)
    ensures
        spec_slices_content(s.push(v)) == spec_slices_content(s) + v@,
    decreases s.len(),
{
    if s.len() == 0 {
        assert(s.push(v)[0] == v);
        assert(s.push(v).drop_first() =~= Seq::<Vec<String>>::empty());
        assert(spec_slices_content(Seq::<Vec<String>>::empty()) == Seq::<String>::empty());
        assert(spec_slices_content(s.push(v)) == v@ + Seq::<String>::empty());
        assert(spec_slices_content(s.push(v)) =~= spec_slices_content(s) + v@);
    } else {
        assert(s.push(v).drop_first() =~= s.drop_first().push(v));
        lemma_slices_content_push(s.drop_first(), v);
        assert(spec_slices_content(s.push(v)) =~= spec_slices_content(s) + v@);
    }
}

/// Ceiling division: the near-equal slice size for a list of `n` over `w`
/// workers.
pub open spec fn spec_ceil_div(n: nat, w: nat) -> int
    recommends
        w > 0,
{
    (n + w - 1) / (w as int)
}

/// The exact length of the k-th contiguous slice when a list of `n` is cut
/// into runs of `per`: a full run, the remainder, or nothing once the list
/// is exhausted (trailing slices are empty).
pub open spec fn spec_slice_len(n: int, per: int, k: int) -> int {
    let rem = n - k * per;
    if rem <= 0 {
        0
    } else if rem < per {
        rem
    } else {
        per
    }
}

/// Partitions the community list across `workers` workers: the list is
/// shuffled pseudo-randomly with the given `seed` (deterministic across runs
/// for reproducibility), then split into `workers` contiguous runs of the
/// shuffled order, each of exactly the ceiling-division size until the list
/// runs out.  Every community lands in exactly one slice: in order, the
/// slices hold exactly the shuffled list, nothing lost and nothing
/// duplicated.
pub fn partition_communities(all: Vec<String>, workers: usize, seed: u64) -> (r: Vec<Vec<String>>)
    requires
        workers >= 1,
        all@.len() + workers <= usize::MAX,
    ensures
        r@.len() == workers,
        spec_slices_content(r@) == shuffled_of(all@, seed),
        spec_slices_content(r@).to_multiset() == all@.to_multiset(),
        forall|k: int|
            0 <= k < workers ==> (#[trigger] r@[k])@.len() == spec_slice_len(
                all@.len() as int,
                spec_ceil_div(all@.len(), workers as nat),
                k,
            ),
{
    let ghost given = all@;
    let mut rest = all;
    shuffle_with_seed(&mut rest, seed);
    let ghost shuffled = rest@;
    let ghost n = shuffled.len() as int;
    proof {
        shuffled.to_multiset_ensures();
        given.to_multiset_ensures();
        assert(n == given.len());
    }
    let per = (rest.len() + workers - 1) / workers;
    proof {
        assert(per == spec_ceil_div(given.len(), workers as nat));
        lemma_fundamental_div_mod(n + workers - 1, workers as int);
        assert(workers * per >= n);
    }
    let mut out: Vec<Vec<String>> = Vec::new();
    let mut w: usize = 0;
    while w < workers
        invariant
            workers >= 1,
            w <= workers,
            out@.len() == w,
            n == shuffled.len(),
            workers * per >= n,
            per == spec_ceil_div(given.len(), workers as nat),
            spec_slices_content(out@) + rest@ == shuffled,
            rest@.len() == (if n - w * per >= 0 {
                n - w * per
            } else {
                0
            }),
            forall|k: int|
                0 <= k < w ==> (#[trigger] out@[k])@.len() == spec_slice_len(n, per as int, k),
        decreases workers - w,
    {
        let take = if rest.len() < per {
            rest.len()
        } else {
            per
        };
        let ghost rest0 = rest@;
        let ghost out0 = out@;
        let mut chunk: Vec<String> = Vec::new();
        let mut t: usize = 0;
        while t < take
            invariant
                t <= take,
                take <= rest0.len(),
                chunk@.len() == t,
                rest@.len() == rest0.len() - t,
                spec_slices_content(out@) + chunk@ + rest@ == shuffled,
                out@ == out0,
            decreases take - t,
        {
            let s = rest.remove(0);
            chunk.push(s);
            proof {
                assert(spec_slices_content(out@) + chunk@ + rest@ =~= shuffled);
            }
            t += 1;
        }
        proof {
            lemma_slices_content_push(out@, chunk);
        }
        let ghost chunk_len = chunk@.len() as int;
        out.push(chunk);
        w += 1;
        proof {
            assert(spec_slices_content(out@) + rest@ =~= shuffled);
            assert(chunk_len <= per);
            assert(chunk_len == spec_slice_len(n, per as int, w - 1));
            assert(rest@.len() == (if n - w * per >= 0 {
                n - w * per
            } else {
                0
            })) by (nonlinear_arith)
                requires
                    w >= 1,
                    per >= 0,
                    rest@.len() == rest0.len() - chunk_len,
                    chunk_len == (if rest0.len() < per {
                        rest0.len() as int
                    } else {
                        per as int
                    }),
                    rest0.len() == (if n - (w - 1) * per >= 0 {
                        n - (w - 1) * per
                    } else {
                        0
                    }),
            {
            }
        }
    }
    proof {
        assert(rest@.len() == 0) by (nonlinear_arith)
            requires
                rest@.len() == (if n - workers * per >= 0 {
                    n - workers * per
                } else {
                    0
                }),
                workers * per >= n,
        {
        }
        assert(spec_slices_content(out@) =~= shuffled);
    }
    out
}

/// The proxy assigned to one worker: round-robin over the provided list, or
/// none when no proxies were supplied.
pub fn proxy_for_worker(proxies: &Vec<String>, w: usize) -> (r: Option<String>)
    ensures
        proxies@.len() == 0 ==> r is None,
        proxies@.len() > 0 ==> r == Some(proxies@[w as int % proxies@.len() as int]),
{
    if proxies.len() == 0 {
        None
    } else {
        Some(proxies[w % proxies.len()].clone())
    }
}

// ---------------------------------------------------------------------------
// The randomized inter-item delay.
// ---------------------------------------------------------------------------

/// Relies on rand::random_range: a value drawn uniformly from [0, n); the
/// range is never empty, so the call cannot panic.
#[verifier::external_body]
fn random_below(n: u64) -> (r: u64)
    requires
        n > 0,
    ensures
        r < n,
{
    rand::random_range(0..n)
}

/// The base delay scaled by a per-mille factor: `base * (600 + r) / 1000`.
pub open spec fn spec_jitter_ms(base: u64, r: int) -> int {
    base * (600 + r) / 1000
}

/// The randomized inter-item delay: the base delay scaled by a factor drawn
/// from the band [0.6, 1.4), in per-mille steps, to desynchronize workers.
/// Separate from and additional to the shared rate gate.
pub fn inter_item_delay_ms(base_ms: u64) -> (d: u64)
    requires
        base_ms <= u64::MAX / 1400,
    ensures
        exists|r: int| 0 <= r < 800 && d == #[trigger] spec_jitter_ms(base_ms, r),
{
    let r = random_below(800);
    proof {
        assert(base_ms * (600 + r) <= u64::MAX) by (nonlinear_arith)
            requires
                base_ms <= u64::MAX / 1400,
                r < 800,
        {
        }
    }
    let d = base_ms * (600 + r) / 1000;
    proof {
        assert(0 <= r < 800 && d == spec_jitter_ms(base_ms, r as int));
    }
    d
}

// ---------------------------------------------------------------------------
// Crawl target urls.
// ---------------------------------------------------------------------------

/// The first listing page for a community: its top-of-day listing.
pub fn listing_url(sub: &String) -> (r: String)
    ensures
        r@ == "https://old.reddit.com/r/"@ + sub@ + "/top/?t=day"@,
{
    let mut s = String::new();
    s.append("https://old.reddit.com/r/");
    s.append(sub.as_str());
    s.append("/top/?t=day");
    s
}

/// The detail page for one post.
pub fn post_url(post_id: &String) -> (r: String)
    ensures
        r@ == "https://old.reddit.com/comments/"@ + post_id@ + "/"@,
{
    let mut s = String::new();
    s.append("https://old.reddit.com/comments/");
    s.append(post_id.as_str());
    s.append("/");
    s
}

// ---------------------------------------------------------------------------
// The per-worker crawl state machine.
// ---------------------------------------------------------------------------

/// What a worker observes after each step the surrounding process performs.
#[derive(Debug)]
pub enum WorkerEvent {
    /// The current listing page loaded and yielded these post ids, in page
    /// order.
    ListingLoaded(Vec<String>),
    /// The current listing page could not be loaded after retries: abandon
    /// this community and move to the next.
    ListingFailed,
    /// The current post's bundle was extracted and emitted to the funnel.
    PostSaved,
    /// The current post's page failed to load or parse: skip this post and
    /// continue with the next one on the page.
    PostSkipped,
    /// All posts on the page are done; was a next-page link present?
    PageEnded(bool),
    /// The browser session itself is gone: fatal, abort every remaining
    /// community assigned to this worker.
    SessionLost,
}

/// One worker's progress through its assigned slice of communities.
pub struct Worker {
    /// The communities assigned to this worker, in crawl order.
    pub assigned: Vec<String>,
    /// Listing pages fetched per community before moving on.
    pub max_pages: usize,
    /// Index of the community currently being crawled.
    pub cur: usize,
    /// Listing pages already fetched for the current community.
    pub page: usize,
    /// Post ids still to fetch from the current listing page.
    pub pending: Vec<String>,
    /// Bundles emitted so far.
    pub saved: usize,
    /// Set on session loss: no further work will be done.
    pub dead: bool,
}

impl Worker {
    pub open spec fn wf(self) -> bool {
        &&& self.cur <= self.assigned@.len()
        &&& self.assigned@.len() < usize::MAX
        &&& self.page <= self.max_pages
    }

    /// A fresh worker at the start of its slice.
    pub fn new(assigned: Vec<String>, max_pages: usize) -> (w: Worker)
        requires
            assigned@.len() < usize::MAX,
        ensures
            w.assigned == assigned,
            w.max_pages == max_pages,
            w.cur == 0,
            w.page == 0,
            w.pending@.len() == 0,
            w.saved == 0,
            !w.dead,
            w.wf(),
    {
        Worker { assigned, max_pages, cur: 0, page: 0, pending: Vec::new(), saved: 0, dead: false }
    }

    /// The worker has no more work: its slice is exhausted or its session is
    /// gone.
    pub fn finished(&self) -> (r: bool)
        ensures
            r == (self.dead || self.cur >= self.assigned@.len()),
    {
        self.dead || self.cur >= self.assigned.len()
    }

    /// Feeds one observed outcome into the machine.  The reactions: a saved
    /// post counts and leaves the page queue shorter by one; a failed post is
    /// skipped the same way without counting; a failed listing abandons the
    /// community; a missing next link or the page cap ends the community; a
    /// lost session ends everything, and a dead worker never changes again.
    /// The saved count never decreases.
    pub fn on_event(&mut self, e: WorkerEvent)
        requires
            old(self).wf(),
        ensures
            final(self).wf(),
            final(self).assigned == old(self).assigned,
            final(self).max_pages == old(self).max_pages,
            final(self).saved >= old(self).saved,
            old(self).dead ==> *final(self) == *old(self),
            !old(self).dead ==> match e {
                WorkerEvent::ListingLoaded(ids) => {
                    if old(self).page < old(self).max_pages {
                        &&& final(self).pending == ids
                        &&& final(self).page == old(self).page + 1
                        &&& final(self).cur == old(self).cur
                        &&& final(self).saved == old(self).saved
                        &&& final(self).dead == old(self).dead
                    } else {
                        final(self).cur == spec_advance(old(self).cur, old(self).assigned@.len())
                            && final(self).page == 0 && final(self).pending@.len() == 0 && final(self).saved == old(self).saved && final(self).dead == old(self).dead
                    }
                },
                WorkerEvent::ListingFailed => final(self).cur == spec_advance(
                    old(self).cur,
                    old(self).assigned@.len(),
                ) && final(self).page == 0 && final(self).pending@.len() == 0 && final(self).saved
                    == old(self).saved && final(self).dead == old(self).dead,
                WorkerEvent::PostSaved => {
                    &&& final(self).saved == spec_count_up(old(self).saved)
                    &&& final(self).pending@ == spec_drop_front(old(self).pending@)
                    &&& final(self).cur == old(self).cur
                    &&& final(self).page == old(self).page
                    &&& final(self).dead == old(self).dead
                },
                WorkerEvent::PostSkipped => {
                    &&& final(self).saved == old(self).saved
                    &&& final(self).pending@ == spec_drop_front(old(self).pending@)
                    &&& final(self).cur == old(self).cur
                    &&& final(self).page == old(self).page
                    &&& final(self).dead == old(self).dead
                },
                WorkerEvent::PageEnded(has_next) => {
                    if has_next && old(self).page < old(self).max_pages {
                        *final(self) == *old(self)
                    } else {
                        final(self).cur == spec_advance(old(self).cur, old(self).assigned@.len())
                            && final(self).page == 0 && final(self).pending@.len() == 0 && final(self).saved == old(self).saved && final(self).dead == old(self).dead
                    }
                },
                WorkerEvent::SessionLost => {
                    &&& final(self).dead
                    &&& final(self).saved == old(self).saved
                    &&& final(self).cur == old(self).cur
                },
            },
    {
        if self.dead {
            return ;
        }
        match e {
            WorkerEvent::ListingLoaded(ids) => {
                if self.page < self.max_pages {
                    self.pending = ids;
                    self.page = self.page + 1;
                } else {
                    self.advance();
                }
            },
            WorkerEvent::ListingFailed => {
                self.advance();
            },
            WorkerEvent::PostSaved => {
                if self.saved < usize::MAX {
                    self.saved = self.saved + 1;
                }
                if self.pending.len() > 0 {
                    let _ = self.pending.remove(0);
                }
            },
            WorkerEvent::PostSkipped => {
                if self.pending.len() > 0 {
                    let _ = self.pending.remove(0);
                }
            },
            WorkerEvent::PageEnded(has_next) => {
                if !(has_next && self.page < self.max_pages) {
                    self.advance();
                }
            },
            WorkerEvent::SessionLost => {
                self.dead = true;
            },
        }
    }

    fn advance(&mut self)
        requires
            old(self).wf(),
        ensures
            final(self).wf(),
            *final(self) == (Worker {
                cur: spec_advance(old(self).cur, old(self).assigned@.len()) as usize,
                page: 0,
                pending: final(self).pending,
                ..*old(self)
            }),
            final(self).pending@.len() == 0,
    {
        if self.cur < self.assigned.len() {
            self.cur = self.cur + 1;
        }
        self.page = 0;
        self.pending = Vec::new();
    }
}

/// The community index after the current community is abandoned or
/// exhausted: the next one, unless the slice is already done.
pub open spec fn spec_advance(cur: usize, len: nat) -> int {
    if cur < len {
        cur + 1
    } else {
        cur as int
    }
}

/// A saved-post counter bumped by one, held at its ceiling.
pub open spec fn spec_count_up(saved: usize) -> int {
    if saved < usize::MAX {
        saved + 1
    } else {
        saved as int
    }
}

/// The page's remaining post queue after the front post is disposed of.
pub open spec fn spec_drop_front(pending: Seq<String>) -> Seq<String> {
    if pending.len() > 0 {
        pending.drop_first()
    } else {
        pending
    }
}

/// The comment list retained for one post: the first `max` extracted
/// comments, those with an empty id dropped.  This is the configurable cap
/// on replies kept per item.
#[verifier::loop_isolation(false)]
pub fn cap_replies(list: Vec<CommentRow>, max: usize) -> (r: Vec<CommentRow>)
    ensures
        r@ == list@.take(if max <= list@.len() {
            max as int
        } else {
            list@.len() as int
        }).filter(|c: CommentRow| c.id@.len() != 0),
{
    let ghost pred = |c: CommentRow| c.id@.len() != 0;
    let take = if max <= list.len() {
        max
    } else {
        list.len()
    };
    let mut out: Vec<CommentRow> = Vec::new();
    let mut i: usize = 0;
    while i < take
        invariant
            i <= take,
            take <= list@.len(),
            out@ == list@.take(i as int).filter(pred),
        decreases take - i,
    {
        proof {
            assert(list@.take(i + 1).drop_last() =~= list@.take(i as int));
            assert(list@.take(i + 1) =~= list@.take(i as int).push(list@[i as int]));
            crate::store::lemma_filter_push(list@.take(i as int), pred, list@[i as int]);
        }
        if list[i].id.as_str().is_empty() {
        } else {
            let c = index_comment(&list, i);
            out.push(c);
        }
        i += 1;
    }
    out
}

fn index_comment(list: &Vec<CommentRow>, i: usize) -> (r: CommentRow)
    requires
        i < list@.len(),
    ensures
        r == list@[i as int],
{
    CommentRow {
        id: list[i].id.clone(),
        post_id: list[i].post_id.clone(),
        parent_fullname: clone_opt_string(&list[i].parent_fullname),
        author: clone_opt_string(&list[i].author),
        body: clone_opt_string(&list[i].body),
        score: list[i].score,
        created_utc: list[i].created_utc,
    }
}

fn clone_opt_string(s: &Option<String>) -> (r: Option<String>)
    ensures
        r == *s,
{
    match s {
        Some(x) => Some(x.clone()),
        None => None,
    }
}

// ---------------------------------------------------------------------------
// The write-funnel protocol.
// ---------------------------------------------------------------------------

/// One message on the multi-producer channel into the single writer.
#[derive(Debug)]
pub enum Msg {
    /// Sent before a worker starts a community: get-or-create its row.
    BeginSubreddit(String),
    /// One completed post: its current row, its images, its capped comment
    /// list, and the snapshot tuple (post id, scan id, score, comment count,
    /// created) for this scan.
    PostBundle {
        subreddit: String,
        post: PostRow,
        images: Vec<(String, Option<String>, Option<String>, Option<i64>)>,
        comments: Vec<CommentRow>,
        snapshot: (String, i64, Option<i64>, Option<i64>, Option<i64>),
    },
    /// Sent once when all workers have finished producing.
    Quit,
}

/// The image table after upserting a bundle's image tuples in order, all
/// owned by post `pid`.
pub open spec fn spec_apply_images(
    s: Seq<ImageRow>,
    pid: String,
    imgs: Seq<(String, Option<String>, Option<String>, Option<i64>)>,
) -> Seq<ImageRow>
    decreases imgs.len(),
{
    if imgs.len() == 0 {
        s
    } else {
        spec_apply_images(
            spec_upsert_image(
                s,
                ImageRow {
                    post_id: pid,
                    url: imgs[0].0,
                    data_base64: imgs[0].1,
                    mime: imgs[0].2,
                    size_bytes: imgs[0].3,
                },
            ),
            pid,
            imgs.drop_first(),
        )
    }
}

/// The comment table and comment snapshot table after upserting a bundle's
/// comments in order, each with its snapshot row for scan `scan`.
pub open spec fn spec_apply_comments(
    cs: Seq<CommentRow>,
    ss: Seq<CommentSnapshot>,
    list: Seq<CommentRow>,
    scan: i64,
) -> (Seq<CommentRow>, Seq<CommentSnapshot>)
    decreases list.len(),
{
    if list.len() == 0 {
        (cs, ss)
    } else {
        let c = list[0];
        spec_apply_comments(
            spec_upsert_comment(cs, c),
            spec_upsert_comment_snapshot(
                ss,
                CommentSnapshot {
                    comment_id: c.id,
                    scan_id: scan,
                    score: c.score,
                    created_utc: c.created_utc,
                },
            ),
            list.drop_first(),
            scan,
        )
    }
}

/// Applies one funnel message to the store.  This is the single writer's
/// whole step: at most one of these runs at a time, and messages from one
/// worker are applied in the order that worker sent them.
#[verifier::loop_isolation(false)]
pub fn apply_message(store: &mut Store, msg: Msg)
    requires
        old(store).wf(),
        old(store).subreddits@.len() + 1 < i64::MAX,
    ensures
        final(store).wf(),
        final(store).scans == old(store).scans,
        final(store).post_metrics == old(store).post_metrics,
        final(store).comment_metrics == old(store).comment_metrics,
        msg matches Msg::Quit ==> *final(store) == *old(store),
        msg matches Msg::BeginSubreddit(name) ==> {
            &&& final(store).subreddits@ == spec_upsert_subreddit(old(store).subreddits@, name)
            &&& *final(store) == (Store { subreddits: final(store).subreddits, ..*old(store) })
        },
        msg matches Msg::PostBundle { subreddit, post, images, comments, snapshot } ==> {
            &&& final(store).subreddits@ == spec_upsert_subreddit(
                old(store).subreddits@,
                subreddit,
            )
            &&& final(store).posts@ == spec_upsert_post(
                old(store).posts@,
                (StoredPost {
                    id: post.id,
                    subreddit_id: spec_subreddit_id(old(store).subreddits@, subreddit@) as i64,
                    url: post.url,
                    title: post.title,
                    author: post.author,
                    score: post.score,
                    created_utc: post.created_utc,
                    selftext: post.selftext,
                    num_comments: post.num_comments,
                }),
            )
            &&& final(store).images@ == spec_apply_images(old(store).images@, post.id, images@)
            &&& (final(store).comments@, final(store).comment_snapshots@) == spec_apply_comments(
                old(store).comments@,
                old(store).comment_snapshots@,
                comments@,
                snapshot.1,
            )
            &&& final(store).post_snapshots@ == spec_upsert_post_snapshot(
                old(store).post_snapshots@,
                (PostSnapshot {
                    post_id: snapshot.0,
                    scan_id: snapshot.1,
                    score: snapshot.2,
                    num_comments: snapshot.3,
                    created_utc: snapshot.4,
                }),
            )
        },
{
    match msg {
        Msg::BeginSubreddit(name) => {
            let _ = upsert_subreddit(store, name);
        },
        Msg::PostBundle { subreddit, post, mut images, mut comments, snapshot } => {
            let sub_id = upsert_subreddit(store, subreddit);
            let pid = post.id.clone();
            upsert_post(
                store,
                post.id,
                sub_id,
                post.url,
                post.title,
                post.author,
                post.score,
                post.created_utc,
                post.selftext,
                post.num_comments,
            );
            let ghost pre_images = *store;
            let ghost imgs0 = images@;
            while images.len() > 0
                invariant
                    store.wf(),
                    *store == (Store { images: store.images, ..pre_images }),
                    spec_apply_images(store.images@, pid, images@) == spec_apply_images(
                        pre_images.images@,
                        pid,
                        imgs0,
                    ),
                decreases images@.len(),
            {
                let tup = images.remove(0);
                let owner = pid.clone();
                ensure_image(store, owner, tup.0, tup.1, tup.2, tup.3);
            }
            let ghost pre_comments = *store;
            let ghost list0 = comments@;
            while comments.len() > 0
                invariant
                    store.wf(),
                    *store == (Store {
                        comments: store.comments,
                        comment_snapshots: store.comment_snapshots,
                        ..pre_comments
                    }),
                    spec_apply_comments(
                        store.comments@,
                        store.comment_snapshots@,
                        comments@,
                        snapshot.1,
                    ) == spec_apply_comments(
                        pre_comments.comments@,
                        pre_comments.comment_snapshots@,
                        list0,
                        snapshot.1,
                    ),
                decreases comments@.len(),
            {
                let c = comments.remove(0);
                let cid = c.id.clone();
                let cscore = c.score;
                let ccreated = c.created_utc;
                upsert_comment(
                    store,
                    c.id,
                    c.post_id,
                    c.parent_fullname,
                    c.author,
                    c.body,
                    c.score,
                    c.created_utc,
                );
                snapshot_comment(store, cid, snapshot.1, cscore, ccreated);
            }
            snapshot_post(store, snapshot.0, snapshot.1, snapshot.2, snapshot.3, snapshot.4);
        },
        Msg::Quit => {},
    }
}

} // verus!
