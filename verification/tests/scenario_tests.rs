//! End-to-end crawl scenarios driven through the verified core: the
//! partitioner, the worker machine, the write funnel, and the metrics phase,
//! with the fetch outcomes scripted instead of performed.

use redscan::metrics::compute_post_metrics;
use redscan::models::PostRow;
use redscan::store::{start_scan, Store};
use redscan::worker::{apply_message, partition_communities, Msg, Worker, WorkerEvent};

fn bundle(sub: &str, post_id: &str, scan_id: i64, score: i64) -> Msg {
    Msg::PostBundle {
        subreddit: sub.to_string(),
        post: PostRow {
            id: post_id.to_string(),
            url: format!("https://old.reddit.com/comments/{}/", post_id),
            title: Some("t".to_string()),
            author: Some("a".to_string()),
            score: Some(score),
            created_utc: Some(1700000000),
            selftext: None,
            num_comments: Some(0),
        },
        images: Vec::new(),
        comments: Vec::new(),
        snapshot: (post_id.to_string(), scan_id, Some(score), Some(0), Some(1700000000)),
    }
}

#[test]
fn one_worker_three_communities_one_page_each() {
    // Three communities, one worker, page cap 1, one post per listing and no
    // rate-limit responses: exactly 3 post rows, 3 snapshot rows tied to one
    // scan, and a saved count of 3.
    let communities = vec!["alpha".to_string(), "beta".to_string(), "gamma".to_string()];
    let mut store = Store::new();
    let scan_id = start_scan(&mut store, 1700000000);

    let slices = partition_communities(communities, 1, 42);
    assert_eq!(slices.len(), 1);
    let mut worker = Worker::new(slices[0].clone(), 1);

    let mut fetched = 0;
    while !worker.finished() {
        let sub = worker.assigned[worker.cur].clone();
        apply_message(&mut store, Msg::BeginSubreddit(sub.clone()));
        let post_id = format!("post_of_{}", sub);
        worker.on_event(WorkerEvent::ListingLoaded(vec![post_id.clone()]));
        apply_message(&mut store, bundle(&sub, &post_id, scan_id, 10));
        worker.on_event(WorkerEvent::PostSaved);
        fetched += 1;
        worker.on_event(WorkerEvent::PageEnded(false));
    }
    apply_message(&mut store, Msg::Quit);

    assert_eq!(worker.saved, 3);
    assert_eq!(fetched, 3);
    assert_eq!(store.posts.len(), 3);
    assert_eq!(store.post_snapshots.len(), 3);
    assert!(store.post_snapshots.iter().all(|s| s.scan_id == scan_id));
    assert_eq!(store.scans.len(), 1);
    assert_eq!(store.subreddits.len(), 3);
}

#[test]
fn repeated_scans_feed_the_metrics_phase() {
    let mut store = Store::new();
    let scan1 = start_scan(&mut store, 1700000000);
    apply_message(&mut store, Msg::BeginSubreddit("alpha".to_string()));
    apply_message(&mut store, bundle("alpha", "p1", scan1, 10));
    compute_post_metrics(&mut store, scan1);
    assert_eq!(store.post_metrics.len(), 0);

    let scan2 = start_scan(&mut store, 1700003600);
    let mut msg = bundle("alpha", "p1", scan2, 40);
    if let Msg::PostBundle { ref mut post, ref mut snapshot, .. } = msg {
        post.created_utc = Some(1700003600);
        snapshot.4 = Some(1700003600);
    }
    apply_message(&mut store, msg);
    compute_post_metrics(&mut store, scan2);

    // the same post row was replaced, the snapshots accumulated
    assert_eq!(store.posts.len(), 1);
    assert_eq!(store.posts[0].score, Some(40));
    assert_eq!(store.post_snapshots.len(), 2);
    assert_eq!(store.post_metrics.len(), 1);
    assert_eq!(store.post_metrics[0].score_delta, Some(30));
    assert!(store.post_metrics[0].virality.equals_int(18));
}

#[test]
fn the_same_bundle_twice_keeps_one_current_row() {
    let mut store = Store::new();
    let scan = start_scan(&mut store, 1700000000);
    apply_message(&mut store, bundle("alpha", "p1", scan, 25));
    apply_message(&mut store, bundle("alpha", "p1", scan, 25));
    assert_eq!(store.posts.len(), 1);
    assert_eq!(store.posts[0].score, Some(25));
    assert_eq!(store.post_snapshots.len(), 1);
    assert_eq!(store.subreddits.len(), 1);
}
