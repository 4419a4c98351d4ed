//! The storage engine that the single-writer funnel mutates: one table per
//! entity, with delete-then-insert upsert semantics throughout.
//!
//! A current row (post, comment, image) is replaced on every sighting — the
//! latest sighting always wins and the store never holds more than one
//! current row per key.  Snapshot rows are append-only history: one row per
//! (entity, scan), with rows from different scans accumulating.

use vstd::prelude::*;
use crate::models::CommentRow;
use crate::metrics::{PostMetric, CommentMetric};

verus! {

broadcast use vstd::seq_lib::group_filter_ensures;

/// A content community.  The id is assigned on first sighting and never
/// changes; ids are allocated sequentially from 1.
#[derive(Debug, Clone)]
pub struct Community {
    pub id: i64,
    pub name: String,
}

/// One crawl run; the id doubles as its wall-clock start in seconds.
#[derive(Debug, Clone, Copy, PartialEq, Eq, Structural)]
pub struct Scan {
    pub id: i64,
    pub scanned_at: i64,
}

/// The current row for one post; exactly one per post id.
#[derive(Debug, Clone)]
pub struct StoredPost {
    pub id: String,
    pub subreddit_id: i64,
    pub url: String,
    pub title: Option<String>,
    pub author: Option<String>,
    pub score: Option<i64>,
    pub created_utc: Option<i64>,
    pub selftext: Option<String>,
    pub num_comments: Option<i64>,
}

/// The current row for one image, keyed by (owning post, url).
#[derive(Debug, Clone)]
pub struct ImageRow {
    pub post_id: String,
    pub url: String,
    pub data_base64: Option<String>,
    pub mime: Option<String>,
    pub size_bytes: Option<i64>,
}

/// A point-in-time copy of a post's mutable fields, keyed by (post, scan).
#[derive(Debug, Clone)]
pub struct PostSnapshot {
    pub post_id: String,
    pub scan_id: i64,
    pub score: Option<i64>,
    pub num_comments: Option<i64>,
    pub created_utc: Option<i64>,
}

/// A point-in-time copy of a comment's score, keyed by (comment, scan).
#[derive(Debug, Clone)]
pub struct CommentSnapshot {
    pub comment_id: String,
    pub scan_id: i64,
    pub score: Option<i64>,
    pub created_utc: Option<i64>,
}

/// No two elements share a key.
pub open spec fn unique_by<A, K>(s: Seq<A>, key: spec_fn(A) -> K) -> bool {
    forall|i: int, j: int| 0 <= i < j < s.len() ==> key(s[i]) != key(s[j])
}

/// The whole storage state, mutated only through the functions below and
/// only by one writer at a time.
pub struct Store {
    pub subreddits: Vec<Community>,
    pub posts: Vec<StoredPost>,
    pub comments: Vec<CommentRow>,
    pub images: Vec<ImageRow>,
    pub scans: Vec<Scan>,
    pub post_snapshots: Vec<PostSnapshot>,
    pub comment_snapshots: Vec<CommentSnapshot>,
    pub post_metrics: Vec<PostMetric>,
    pub comment_metrics: Vec<CommentMetric>,
}

impl Store {
    /// Storage invariant: a community name maps to exactly one sequentially
    /// allocated id, and every keyed table holds at most one current row per
    /// key.
    pub open spec fn wf(self) -> bool {
        &&& forall|i: int|
            0 <= i < self.subreddits@.len() ==> (#[trigger] self.subreddits@[i]).id == i + 1
        &&& unique_by(self.subreddits@, |c: Community| c.name@)
        &&& unique_by(self.posts@, |p: StoredPost| p.id@)
        &&& unique_by(self.comments@, |c: CommentRow| c.id@)
        &&& unique_by(self.images@, |m: ImageRow| (m.post_id@, m.url@))
        &&& unique_by(self.post_snapshots@, |s: PostSnapshot| (s.post_id@, s.scan_id))
        &&& unique_by(self.comment_snapshots@, |s: CommentSnapshot| (s.comment_id@, s.scan_id))
    }

    /// An empty store.
    pub fn new() -> (s: Store)
        ensures
            s.wf(),
            s.subreddits@ =~= Seq::<Community>::empty(),
            s.posts@ =~= Seq::<StoredPost>::empty(),
            s.comments@ =~= Seq::<CommentRow>::empty(),
            s.images@ =~= Seq::<ImageRow>::empty(),
            s.scans@ =~= Seq::<Scan>::empty(),
            s.post_snapshots@ =~= Seq::<PostSnapshot>::empty(),
            s.comment_snapshots@ =~= Seq::<CommentSnapshot>::empty(),
            s.post_metrics@ =~= Seq::<PostMetric>::empty(),
            s.comment_metrics@ =~= Seq::<CommentMetric>::empty(),
    {
        Store {
            subreddits: Vec::new(),
            posts: Vec::new(),
            comments: Vec::new(),
            images: Vec::new(),
            scans: Vec::new(),
            post_snapshots: Vec::new(),
            comment_snapshots: Vec::new(),
            post_metrics: Vec::new(),
            comment_metrics: Vec::new(),
        }
    }
}

// ---------------------------------------------------------------------------
// Facts about filtering that the delete-then-insert upserts rest on.
// ---------------------------------------------------------------------------

proof fn lemma_filter_all_true<A>(s: Seq<A>, pred: spec_fn(A) -> bool)
    requires
        forall|i: int| 0 <= i < s.len() ==> pred(#[trigger] s[i]),
    ensures
        s.filter(pred) == s,
    decreases s.len(),
{
    reveal(Seq::filter);
    if s.len() > 0 {
        let dl = s.drop_last();
        assert(forall|i: int| 0 <= i < dl.len() ==> pred(#[trigger] dl[i]));
        lemma_filter_all_true(dl, pred);
        assert(pred(s.last()));
        assert(s.filter(pred) =~= s);
    }
}

proof fn lemma_filter_all_false<A>(s: Seq<A>, pred: spec_fn(A) -> bool)
    requires
        forall|i: int| 0 <= i < s.len() ==> !pred(#[trigger] s[i]),
    ensures
        s.filter(pred) == Seq::<A>::empty(),
    decreases s.len(),
{
    reveal(Seq::filter);
    if s.len() > 0 {
        let dl = s.drop_last();
        assert(forall|i: int| 0 <= i < dl.len() ==> !pred(#[trigger] dl[i]));
        lemma_filter_all_false(dl, pred);
        assert(!pred(s.last()));
    }
}

/// Every element of a filtered sequence occurs in the original.
proof fn lemma_filter_elements<A>(s: Seq<A>, pred: spec_fn(A) -> bool)
    ensures
        forall|i: int|
            0 <= i < s.filter(pred).len() ==> exists|j: int|
                0 <= j < s.len() && s[j] == #[trigger] s.filter(pred)[i],
    decreases s.len(),
{
    reveal(Seq::filter);
    if s.len() > 0 {
        let dl = s.drop_last();
        lemma_filter_elements(dl, pred);
        assert forall|i: int| 0 <= i < s.filter(pred).len() implies exists|j: int|
            0 <= j < s.len() && s[j] == #[trigger] s.filter(pred)[i] by {
            let f = s.filter(pred);
            if i < dl.filter(pred).len() {
                assert(f[i] == dl.filter(pred)[i]);
                let j = choose|j: int| 0 <= j < dl.len() && dl[j] == dl.filter(pred)[i];
                assert(s[j] == f[i]);
            } else {
                assert(f[i] == s.last());
                assert(s[s.len() - 1] == f[i]);
            }
        }
    }
}

/// Filtering cannot create a duplicate key.
proof fn lemma_filter_unique<A, K>(s: Seq<A>, pred: spec_fn(A) -> bool, key: spec_fn(A) -> K)
    requires
        unique_by(s, key),
    ensures
        unique_by(s.filter(pred), key),
    decreases s.len(),
{
    reveal(Seq::filter);
    if s.len() > 0 {
        let dl = s.drop_last();
        assert(unique_by(dl, key));
        lemma_filter_unique(dl, pred, key);
        if pred(s.last()) {
            lemma_filter_elements(dl, pred);
            let f = s.filter(pred);
            assert(f == dl.filter(pred).push(s.last()));
            assert forall|i: int, j: int| 0 <= i < j < f.len() implies key(f[i]) != key(f[j]) by {
                if j < f.len() - 1 {
                    assert(key(dl.filter(pred)[i]) != key(dl.filter(pred)[j]));
                } else {
                    let w = choose|w: int| 0 <= w < dl.len() && dl[w] == dl.filter(pred)[i];
                    assert(key(s[w]) != key(s[s.len() - 1]));
                }
            }
        }
    }
}

/// When exactly one element fails the keep-predicate, deleting it by index
/// is the same as filtering.
proof fn lemma_remove_is_filter<A>(s: Seq<A>, keep: spec_fn(A) -> bool, i: int)
    requires
        0 <= i < s.len(),
        !keep(s[i]),
        forall|j: int| 0 <= j < s.len() && j != i ==> keep(#[trigger] s[j]),
    ensures
        s.remove(i) == s.filter(keep),
{
    broadcast use vstd::prelude::Seq::filter_distributes_over_add;

    let a = s.subrange(0, i);
    let m = s.subrange(i, i + 1);
    let b = s.subrange(i + 1, s.len() as int);
    assert(s =~= (a + m) + b);
    lemma_filter_all_true(a, keep);
    lemma_filter_all_true(b, keep);
    lemma_filter_all_false(m, keep);
    assert(s.filter(keep) == ((a + m) + b).filter(keep));
    assert(((a + m) + b).filter(keep) == (a + m).filter(keep) + b.filter(keep));
    assert((a + m).filter(keep) == a.filter(keep) + m.filter(keep));
    assert(s.filter(keep) =~= a + b);
    assert(s.remove(i) =~= a + b);
}

/// Appending an element distributes over filtering.
pub(crate) proof fn lemma_filter_push<A>(s: Seq<A>, pred: spec_fn(A) -> bool, x: A)
    ensures
        s.push(x).filter(pred) == if pred(x) {
            s.filter(pred).push(x)
        } else {
            s.filter(pred)
        },
{
    reveal(Seq::filter);
    assert(s.push(x).drop_last() =~= s);
    assert(s.push(x).last() == x);
}

/// Filtering for a key that an earlier filter excluded yields nothing.
proof fn lemma_filter_filter_excluded<A>(s: Seq<A>, p: spec_fn(A) -> bool, q: spec_fn(A) -> bool)
    requires
        forall|a: A| #[trigger] p(a) ==> !q(a),
    ensures
        s.filter(p).filter(q) == Seq::<A>::empty(),
{
    let t = s.filter(p);
    assert(forall|i: int| 0 <= i < t.len() ==> !q(#[trigger] t[i]));
    lemma_filter_all_false(t, q);
}

// ---------------------------------------------------------------------------
// The upserts.
// ---------------------------------------------------------------------------

/// The post table after upserting `row`: every row with the same id is
/// deleted, then `row` is appended.
pub open spec fn spec_upsert_post(s: Seq<StoredPost>, row: StoredPost) -> Seq<StoredPost> {
    s.filter(|p: StoredPost| p.id@ != row.id@).push(row)
}

/// The comment table after upserting `row`.
pub open spec fn spec_upsert_comment(s: Seq<CommentRow>, row: CommentRow) -> Seq<CommentRow> {
    s.filter(|c: CommentRow| c.id@ != row.id@).push(row)
}

/// The image table after upserting `row`, keyed by (post, url).
pub open spec fn spec_upsert_image(s: Seq<ImageRow>, row: ImageRow) -> Seq<ImageRow> {
    s.filter(|m: ImageRow| (m.post_id@, m.url@) != (row.post_id@, row.url@)).push(row)
}

/// The post snapshot table after writing `row`: the row for the same
/// (post, scan) is replaced, rows from other scans are untouched.
pub open spec fn spec_upsert_post_snapshot(
    s: Seq<PostSnapshot>,
    row: PostSnapshot,
) -> Seq<PostSnapshot> {
    s.filter(|x: PostSnapshot| (x.post_id@, x.scan_id) != (row.post_id@, row.scan_id)).push(row)
}

/// The comment snapshot table after writing `row`.
pub open spec fn spec_upsert_comment_snapshot(
    s: Seq<CommentSnapshot>,
    row: CommentSnapshot,
) -> Seq<CommentSnapshot> {
    s.filter(
        |x: CommentSnapshot| (x.comment_id@, x.scan_id) != (row.comment_id@, row.scan_id),
    ).push(row)
}

fn find_post(posts: &Vec<StoredPost>, id: &String) -> (r: Option<usize>)
    ensures
        match r {
            Some(i) => 0 <= i < posts@.len() && posts@[i as int].id@ == id@,
            None => forall|j: int| 0 <= j < posts@.len() ==> (#[trigger] posts@[j]).id@ != id@,
        },
{
    let n = posts.len();
    let mut i: usize = 0;
    while i < n
        invariant
            n == posts@.len(),
            i <= n,
            forall|j: int| 0 <= j < i ==> (#[trigger] posts@[j]).id@ != id@,
        decreases n - i,
    {
        if posts[i].id == *id {
            return Some(i);
        }
        i += 1;
    }
    None
}

pub(crate) fn find_comment(comments: &Vec<CommentRow>, id: &String) -> (r: Option<usize>)
    ensures
        match r {
            Some(i) => 0 <= i < comments@.len() && comments@[i as int].id@ == id@,
            None => forall|j: int| 0 <= j < comments@.len() ==> (#[trigger] comments@[j]).id@ != id@,
        },
{
    let n = comments.len();
    let mut i: usize = 0;
    while i < n
        invariant
            n == comments@.len(),
            i <= n,
            forall|j: int| 0 <= j < i ==> (#[trigger] comments@[j]).id@ != id@,
        decreases n - i,
    {
        if comments[i].id == *id {
            return Some(i);
        }
        i += 1;
    }
    None
}

fn find_image(images: &Vec<ImageRow>, post_id: &String, url: &String) -> (r: Option<usize>)
    ensures
        match r {
            Some(i) => 0 <= i < images@.len() && (images@[i as int].post_id@, images@[i as int].url@) == (post_id@, url@),
            None => forall|j: int|
                0 <= j < images@.len() ==> ((#[trigger] images@[j]).post_id@, images@[j].url@)
                    != (post_id@, url@),
        },
{
    let n = images.len();
    let mut i: usize = 0;
    while i < n
        invariant
            n == images@.len(),
            i <= n,
            forall|j: int|
                0 <= j < i ==> ((#[trigger] images@[j]).post_id@, images@[j].url@) != (
                    post_id@,
                    url@,
                ),
        decreases n - i,
    {
        if images[i].post_id == *post_id && images[i].url == *url {
            return Some(i);
        }
        i += 1;
    }
    None
}

fn find_post_snapshot(snaps: &Vec<PostSnapshot>, post_id: &String, scan_id: i64) -> (r: Option<
    usize,
>)
    ensures
        match r {
            Some(i) => 0 <= i < snaps@.len() && (snaps@[i as int].post_id@, snaps@[i as int].scan_id) == (post_id@, scan_id),
            None => forall|j: int|
                0 <= j < snaps@.len() ==> ((#[trigger] snaps@[j]).post_id@, snaps@[j].scan_id) != (
                    post_id@,
                    scan_id,
                ),
        },
{
    let n = snaps.len();
    let mut i: usize = 0;
    while i < n
        invariant
            n == snaps@.len(),
            i <= n,
            forall|j: int|
                0 <= j < i ==> ((#[trigger] snaps@[j]).post_id@, snaps@[j].scan_id) != (
                    post_id@,
                    scan_id,
                ),
        decreases n - i,
    {
        if snaps[i].post_id == *post_id && snaps[i].scan_id == scan_id {
            return Some(i);
        }
        i += 1;
    }
    None
}

fn find_comment_snapshot(snaps: &Vec<CommentSnapshot>, comment_id: &String, scan_id: i64) -> (r:
    Option<usize>)
    ensures
        match r {
            Some(i) => 0 <= i < snaps@.len() && (snaps@[i as int].comment_id@, snaps@[i as int].scan_id) == (comment_id@, scan_id),
            None => forall|j: int|
                0 <= j < snaps@.len() ==> ((#[trigger] snaps@[j]).comment_id@, snaps@[j].scan_id) != (comment_id@, scan_id),
        },
{
    let n = snaps.len();
    let mut i: usize = 0;
    while i < n
        invariant
            n == snaps@.len(),
            i <= n,
            forall|j: int|
                0 <= j < i ==> ((#[trigger] snaps@[j]).comment_id@, snaps@[j].scan_id) != (
                    comment_id@,
                    scan_id,
                ),
        decreases n - i,
    {
        if snaps[i].comment_id == *comment_id && snaps[i].scan_id == scan_id {
            return Some(i);
        }
        i += 1;
    }
    None
}

/// Records a new scan: appends its row and returns its id, which is the
/// supplied wall-clock instant.
pub fn start_scan(store: &mut Store, now: i64) -> (r: i64)
    requires
        old(store).wf(),
    ensures
        final(store).wf(),
        final(store).scans@ == old(store).scans@.push((Scan { id: now, scanned_at: now })),
        r == now,
        *final(store) == (Store { scans: final(store).scans, ..*old(store) }),
{
    store.scans.push(Scan { id: now, scanned_at: now });
    now
}

/// The community table after get-or-create of `name`.
pub open spec fn spec_upsert_subreddit(s: Seq<Community>, name: String) -> Seq<Community> {
    if exists|i: int| 0 <= i < s.len() && (#[trigger] s[i]).name@ == name@ {
        s
    } else {
        s.push(Community { id: (s.len() + 1) as i64, name })
    }
}

/// The id that get-or-create yields for `name`: the existing row's id, or
/// the next sequential one.
pub open spec fn spec_subreddit_id(s: Seq<Community>, name: Seq<char>) -> int {
    if exists|i: int| 0 <= i < s.len() && (#[trigger] s[i]).name@ == name {
        s[choose|i: int| 0 <= i < s.len() && (#[trigger] s[i]).name@ == name].id as int
    } else {
        s.len() + 1 as int
    }
}

/// Get-or-create for a community: returns the existing id when the name is
/// already known, otherwise assigns the next sequential id and inserts the
/// row.  Idempotent: a name maps to one id for the lifetime of the store.
#[verifier::loop_isolation(false)]
pub fn upsert_subreddit(store: &mut Store, name: String) -> (r: i64)
    requires
        old(store).wf(),
        old(store).subreddits@.len() + 1 < i64::MAX,
    ensures
        final(store).wf(),
        *final(store) == (Store { subreddits: final(store).subreddits, ..*old(store) }),
        final(store).subreddits@ == spec_upsert_subreddit(old(store).subreddits@, name),
        r == spec_subreddit_id(old(store).subreddits@, name@),
{
    let n = store.subreddits.len();
    let mut i: usize = 0;
    while i < n
        invariant
            *store == *old(store),
            n == store.subreddits@.len(),
            i <= n,
            forall|j: int| 0 <= j < i ==> (#[trigger] store.subreddits@[j]).name@ != name@,
        decreases n - i,
    {
        if store.subreddits[i].name == name {
            proof {
                let s = store.subreddits@;
                let key = |c: Community| c.name@;
                let j = choose|j: int| 0 <= j < s.len() && (#[trigger] s[j]).name@ == name@;
                if i != j {
                    assert(key(s[i as int]) != key(s[j]));
                    assert(false);
                }
            }
            return store.subreddits[i].id;
        }
        i += 1;
    }
    let id = (n as i64) + 1;
    store.subreddits.push(Community { id, name });
    id
}

/// Upserts the current row for a post: deletes any row with this id, then
/// inserts one carrying exactly the supplied fields.
pub fn upsert_post(
    store: &mut Store,
    id: String,
    subreddit_id: i64,
    url: String,
    title: Option<String>,
    author: Option<String>,
    score: Option<i64>,
    created_utc: Option<i64>,
    selftext: Option<String>,
    num_comments: Option<i64>,
)
    requires
        old(store).wf(),
    ensures
        final(store).wf(),
        *final(store) == (Store { posts: final(store).posts, ..*old(store) }),
        final(store).posts@ == spec_upsert_post(
            old(store).posts@,
            (StoredPost {
                id,
                subreddit_id,
                url,
                title,
                author,
                score,
                created_utc,
                selftext,
                num_comments,
            }),
        ),
{
    let ghost keep = |p: StoredPost| p.id@ != id@;
    match find_post(&store.posts, &id) {
        Some(i) => {
            proof {
                assert forall|j: int|
                    0 <= j < store.posts@.len() && j != i ==> keep(
                        #[trigger] store.posts@[j],
                    ) by {
                    assert(unique_by(store.posts@, |p: StoredPost| p.id@));
                }
                lemma_remove_is_filter(store.posts@, keep, i as int);
            }
            let _ = store.posts.remove(i);
        },
        None => {
            proof {
                lemma_filter_all_true(store.posts@, keep);
            }
        },
    }
    proof {
        lemma_filter_unique(old(store).posts@, keep, |p: StoredPost| p.id@);
    }
    store.posts.push(
        StoredPost { id, subreddit_id, url, title, author, score, created_utc, selftext, num_comments },
    );
}

/// Upserts the current row for a comment, and nothing else.
pub fn upsert_comment(
    store: &mut Store,
    id: String,
    post_id: String,
    parent_fullname: Option<String>,
    author: Option<String>,
    body: Option<String>,
    score: Option<i64>,
    created_utc: Option<i64>,
)
    requires
        old(store).wf(),
    ensures
        final(store).wf(),
        *final(store) == (Store { comments: final(store).comments, ..*old(store) }),
        final(store).comments@ == spec_upsert_comment(
            old(store).comments@,
            (CommentRow { id, post_id, parent_fullname, author, body, score, created_utc }),
        ),
{
    let ghost keep = |c: CommentRow| c.id@ != id@;
    match find_comment(&store.comments, &id) {
        Some(i) => {
            proof {
                assert forall|j: int|
                    0 <= j < store.comments@.len() && j != i ==> keep(
                        #[trigger] store.comments@[j],
                    ) by {
                    assert(unique_by(store.comments@, |c: CommentRow| c.id@));
                }
                lemma_remove_is_filter(store.comments@, keep, i as int);
            }
            let _ = store.comments.remove(i);
        },
        None => {
            proof {
                lemma_filter_all_true(store.comments@, keep);
            }
        },
    }
    proof {
        lemma_filter_unique(old(store).comments@, keep, |c: CommentRow| c.id@);
    }
    store.comments.push(
        CommentRow { id, post_id, parent_fullname, author, body, score, created_utc },
    );
}

/// Upserts the row for one image, keyed by (owning post, url).
pub fn ensure_image(
    store: &mut Store,
    post_id: String,
    url: String,
    data_base64: Option<String>,
    mime: Option<String>,
    size_bytes: Option<i64>,
)
    requires
        old(store).wf(),
    ensures
        final(store).wf(),
        *final(store) == (Store { images: final(store).images, ..*old(store) }),
        final(store).images@ == spec_upsert_image(
            old(store).images@,
            (ImageRow { post_id, url, data_base64, mime, size_bytes }),
        ),
{
    let ghost keep = |m: ImageRow| (m.post_id@, m.url@) != (post_id@, url@);
    match find_image(&store.images, &post_id, &url) {
        Some(i) => {
            proof {
                assert forall|j: int|
                    0 <= j < store.images@.len() && j != i ==> keep(
                        #[trigger] store.images@[j],
                    ) by {
                    assert(unique_by(store.images@, |m: ImageRow| (m.post_id@, m.url@)));
                }
                lemma_remove_is_filter(store.images@, keep, i as int);
            }
            let _ = store.images.remove(i);
        },
        None => {
            proof {
                lemma_filter_all_true(store.images@, keep);
            }
        },
    }
    proof {
        lemma_filter_unique(old(store).images@, keep, |m: ImageRow| (m.post_id@, m.url@));
    }
    store.images.push(ImageRow { post_id, url, data_base64, mime, size_bytes });
}

/// Writes a post's snapshot for one scan: replaces the row for the same
/// (post, scan) and leaves rows from every other scan in place.
pub fn snapshot_post(
    store: &mut Store,
    post_id: String,
    scan_id: i64,
    score: Option<i64>,
    num_comments: Option<i64>,
    created_utc: Option<i64>,
)
    requires
        old(store).wf(),
    ensures
        final(store).wf(),
        *final(store) == (Store { post_snapshots: final(store).post_snapshots, ..*old(store) }),
        final(store).post_snapshots@ == spec_upsert_post_snapshot(
            old(store).post_snapshots@,
            (PostSnapshot { post_id, scan_id, score, num_comments, created_utc }),
        ),
{
    let ghost keep = |x: PostSnapshot| (x.post_id@, x.scan_id) != (post_id@, scan_id);
    match find_post_snapshot(&store.post_snapshots, &post_id, scan_id) {
        Some(i) => {
            proof {
                assert forall|j: int|
                    0 <= j < store.post_snapshots@.len() && j != i ==> keep(
                        #[trigger] store.post_snapshots@[j],
                    ) by {
                    assert(unique_by(
                        store.post_snapshots@,
                        |x: PostSnapshot| (x.post_id@, x.scan_id),
                    ));
                }
                lemma_remove_is_filter(store.post_snapshots@, keep, i as int);
            }
            let _ = store.post_snapshots.remove(i);
        },
        None => {
            proof {
                lemma_filter_all_true(store.post_snapshots@, keep);
            }
        },
    }
    proof {
        lemma_filter_unique(
            old(store).post_snapshots@,
            keep,
            |x: PostSnapshot| (x.post_id@, x.scan_id),
        );
    }
    store.post_snapshots.push(PostSnapshot { post_id, scan_id, score, num_comments, created_utc });
}

/// Writes a comment's snapshot for one scan, symmetric to `snapshot_post`.
pub fn snapshot_comment(
    store: &mut Store,
    comment_id: String,
    scan_id: i64,
    score: Option<i64>,
    created_utc: Option<i64>,
)
    requires
        old(store).wf(),
    ensures
        final(store).wf(),
        *final(store) == (Store {
            comment_snapshots: final(store).comment_snapshots,
            ..*old(store)
        }),
        final(store).comment_snapshots@ == spec_upsert_comment_snapshot(
            old(store).comment_snapshots@,
            (CommentSnapshot { comment_id, scan_id, score, created_utc }),
        ),
{
    let ghost keep = |x: CommentSnapshot| (x.comment_id@, x.scan_id) != (comment_id@, scan_id);
    match find_comment_snapshot(&store.comment_snapshots, &comment_id, scan_id) {
        Some(i) => {
            proof {
                assert forall|j: int|
                    0 <= j < store.comment_snapshots@.len() && j != i ==> keep(
                        #[trigger] store.comment_snapshots@[j],
                    ) by {
                    assert(unique_by(
                        store.comment_snapshots@,
                        |x: CommentSnapshot| (x.comment_id@, x.scan_id),
                    ));
                }
                lemma_remove_is_filter(store.comment_snapshots@, keep, i as int);
            }
            let _ = store.comment_snapshots.remove(i);
        },
        None => {
            proof {
                lemma_filter_all_true(store.comment_snapshots@, keep);
            }
        },
    }
    proof {
        lemma_filter_unique(
            old(store).comment_snapshots@,
            keep,
            |x: CommentSnapshot| (x.comment_id@, x.scan_id),
        );
    }
    store.comment_snapshots.push(CommentSnapshot { comment_id, scan_id, score, created_utc });
}

// ---------------------------------------------------------------------------
// Laws of the upsert discipline.
// ---------------------------------------------------------------------------

/// Law: upserting a post is idempotent.  Applying the same write twice
/// leaves the table exactly as one application does, and in either case the
/// table holds exactly one current row for that id — the one carrying the
/// written values.
pub proof fn lemma_upsert_post_idempotent(s: Seq<StoredPost>, row: StoredPost)
    ensures
        spec_upsert_post(spec_upsert_post(s, row), row) == spec_upsert_post(s, row),
        spec_upsert_post(s, row).filter(|p: StoredPost| p.id@ == row.id@) == seq![row],
{
    let keep = |p: StoredPost| p.id@ != row.id@;
    let hit = |p: StoredPost| p.id@ == row.id@;
    let once = spec_upsert_post(s, row);
    lemma_filter_push(s.filter(keep), keep, row);
    lemma_filter_filter_excluded(s, keep, hit);
    lemma_filter_push(s.filter(keep), hit, row);
    assert(forall|i: int|
        0 <= i < s.filter(keep).len() ==> keep(#[trigger] s.filter(keep)[i]));
    lemma_filter_all_true(s.filter(keep), keep);
    assert(once.filter(keep) == s.filter(keep));
    assert(spec_upsert_post(once, row) == spec_upsert_post(s, row));
    assert(once.filter(hit) =~= seq![row]);
}

/// Law: snapshots are append-only history.  Writing snapshot rows for the
/// same post under two different scan ids keeps both: after the two writes,
/// filtering by either (post, scan) key yields exactly that scan's row.
pub proof fn lemma_snapshot_append_only(s: Seq<PostSnapshot>, a: PostSnapshot, b: PostSnapshot)
    requires
        a.post_id@ == b.post_id@,
        a.scan_id != b.scan_id,
    ensures
        ({
            let both = spec_upsert_post_snapshot(spec_upsert_post_snapshot(s, a), b);
            &&& both.filter(
                |x: PostSnapshot| (x.post_id@, x.scan_id) == (a.post_id@, a.scan_id),
            ) == seq![a]
            &&& both.filter(
                |x: PostSnapshot| (x.post_id@, x.scan_id) == (b.post_id@, b.scan_id),
            ) == seq![b]
        }),
{
    let keep_a = |x: PostSnapshot| (x.post_id@, x.scan_id) != (a.post_id@, a.scan_id);
    let keep_b = |x: PostSnapshot| (x.post_id@, x.scan_id) != (b.post_id@, b.scan_id);
    let hit_a = |x: PostSnapshot| (x.post_id@, x.scan_id) == (a.post_id@, a.scan_id);
    let hit_b = |x: PostSnapshot| (x.post_id@, x.scan_id) == (b.post_id@, b.scan_id);
    let once = spec_upsert_post_snapshot(s, a);
    let both = spec_upsert_post_snapshot(once, b);
    // the b-side: everything kept by keep_b fails hit_b, and b itself hits
    lemma_filter_filter_excluded(once, keep_b, hit_b);
    lemma_filter_push(once.filter(keep_b), hit_b, b);
    assert(both.filter(hit_b) =~= seq![b]);
    // the a-side: a survives the keep_b filter because the scan ids differ
    lemma_filter_push(s.filter(keep_a), keep_b, a);
    assert(once.filter(keep_b) == s.filter(keep_a).filter(keep_b).push(a));
    lemma_filter_push(once.filter(keep_b), hit_a, b);
    let t = s.filter(keep_a).filter(keep_b);
    lemma_filter_push(t, hit_a, a);
    // t keeps only rows whose key already differs from a's key
    lemma_filter_elements(s.filter(keep_a), keep_b);
    assert forall|i: int| 0 <= i < t.len() implies !hit_a(t[i]) by {
        let w = choose|w: int|
            0 <= w < s.filter(keep_a).len() && s.filter(keep_a)[w] == s.filter(keep_a).filter(
                keep_b,
            )[i];
        assert(keep_a(s.filter(keep_a)[w]));
    }
    lemma_filter_all_false(t, hit_a);
    assert(both.filter(hit_a) =~= seq![a]);
}

} // verus!
