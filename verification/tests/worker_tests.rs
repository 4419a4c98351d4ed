use redscan::models::CommentRow;
use redscan::worker::{
    cap_replies, inter_item_delay_ms, listing_url, partition_communities, post_url,
    proxy_for_worker, Worker, WorkerEvent,
};

fn names(v: &[&str]) -> Vec<String> {
    v.iter().map(|s| s.to_string()).collect()
}

#[test]
fn partition_loses_and_duplicates_nothing() {
    // Every community lands in exactly one worker's slice, whatever the
    // shuffle did: the union of the slices is the original set.
    let all = names(&["a", "b", "c", "d", "e"]);
    let slices = partition_communities(all.clone(), 2, 42);
    assert_eq!(slices.len(), 2);
    let mut got: Vec<String> = slices.iter().flatten().cloned().collect();
    let mut want = all;
    got.sort();
    want.sort();
    assert_eq!(got, want);
    for s in &slices {
        // ceil(5 / 2) = 3
        assert!(s.len() <= 3);
    }
}

#[test]
fn partition_is_deterministic_for_a_seed() {
    let all = names(&["a", "b", "c", "d", "e", "f", "g"]);
    let one = partition_communities(all.clone(), 3, 7);
    let two = partition_communities(all, 3, 7);
    assert_eq!(one, two);
}

#[test]
fn partition_single_worker_gets_everything() {
    let all = names(&["x", "y", "z"]);
    let slices = partition_communities(all.clone(), 1, 42);
    assert_eq!(slices.len(), 1);
    let mut got = slices[0].clone();
    let mut want = all;
    got.sort();
    want.sort();
    assert_eq!(got, want);
}

#[test]
fn partition_slices_have_exact_ceiling_sizes() {
    // seven communities over three workers: contiguous runs of 3, 3, 1
    let all = names(&["a", "b", "c", "d", "e", "f", "g"]);
    let slices = partition_communities(all, 3, 11);
    let sizes: Vec<usize> = slices.iter().map(|s| s.len()).collect();
    assert_eq!(sizes, vec![3, 3, 1]);
    // two communities over four workers: the trailing slices are empty
    let all = names(&["a", "b"]);
    let slices = partition_communities(all, 4, 11);
    let sizes: Vec<usize> = slices.iter().map(|s| s.len()).collect();
    assert_eq!(sizes, vec![1, 1, 0, 0]);
}

#[test]
fn proxies_are_assigned_round_robin() {
    let proxies = names(&["p0", "p1", "p2"]);
    assert_eq!(proxy_for_worker(&proxies, 0).as_deref(), Some("p0"));
    assert_eq!(proxy_for_worker(&proxies, 1).as_deref(), Some("p1"));
    assert_eq!(proxy_for_worker(&proxies, 4).as_deref(), Some("p1"));
    assert_eq!(proxy_for_worker(&Vec::new(), 2), None);
}

#[test]
fn urls_are_built_exactly() {
    assert_eq!(
        listing_url(&"rust".to_string()),
        "https://old.reddit.com/r/rust/top/?t=day"
    );
    assert_eq!(
        post_url(&"abc123".to_string()),
        "https://old.reddit.com/comments/abc123/"
    );
}

#[test]
fn inter_item_delay_stays_in_band() {
    for _ in 0..50 {
        let d = inter_item_delay_ms(1000);
        assert!((600..1400).contains(&d));
    }
}

#[test]
fn worker_counts_saves_and_walks_pages() {
    let mut w = Worker::new(names(&["one"]), 2);
    assert!(!w.finished());
    w.on_event(WorkerEvent::ListingLoaded(names(&["p1", "p2"])));
    assert_eq!(w.page, 1);
    assert_eq!(w.pending.len(), 2);
    w.on_event(WorkerEvent::PostSaved);
    w.on_event(WorkerEvent::PostSkipped);
    assert_eq!(w.saved, 1);
    assert_eq!(w.pending.len(), 0);
    // a next link exists and the page cap allows one more page
    w.on_event(WorkerEvent::PageEnded(true));
    assert!(!w.finished());
    w.on_event(WorkerEvent::ListingLoaded(names(&["p3"])));
    w.on_event(WorkerEvent::PostSaved);
    // the cap of two pages is reached even though a next link exists
    w.on_event(WorkerEvent::PageEnded(true));
    assert!(w.finished());
    assert_eq!(w.saved, 2);
}

#[test]
fn worker_abandons_community_on_listing_failure() {
    let mut w = Worker::new(names(&["one", "two"]), 5);
    w.on_event(WorkerEvent::ListingFailed);
    assert_eq!(w.cur, 1);
    assert!(!w.finished());
    w.on_event(WorkerEvent::ListingFailed);
    assert!(w.finished());
    assert_eq!(w.saved, 0);
}

#[test]
fn session_loss_aborts_all_remaining_work() {
    let mut w = Worker::new(names(&["one", "two", "three"]), 5);
    w.on_event(WorkerEvent::ListingLoaded(names(&["p1"])));
    w.on_event(WorkerEvent::PostSaved);
    w.on_event(WorkerEvent::SessionLost);
    assert!(w.finished());
    assert_eq!(w.saved, 1);
    // a dead worker ignores everything that follows
    w.on_event(WorkerEvent::ListingLoaded(names(&["p9"])));
    assert!(w.finished());
    assert_eq!(w.saved, 1);
}

fn comment(id: &str) -> CommentRow {
    CommentRow {
        id: id.to_string(),
        post_id: "p1".to_string(),
        parent_fullname: None,
        author: None,
        body: None,
        score: Some(1),
        created_utc: None,
    }
}

#[test]
fn replies_are_capped_and_unidentified_ones_dropped() {
    let list = vec![comment("c1"), comment(""), comment("c2"), comment("c3")];
    let kept = cap_replies(list, 3);
    let ids: Vec<&str> = kept.iter().map(|c| c.id.as_str()).collect();
    // the cap applies before the empty id is dropped
    assert_eq!(ids, vec!["c1", "c2"]);
}

#[test]
fn cap_larger_than_list_keeps_everything_with_an_id() {
    let list = vec![comment("c1"), comment("c2")];
    let kept = cap_replies(list, 500);
    assert_eq!(kept.len(), 2);
}
