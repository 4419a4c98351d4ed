use redscan::store::{
    ensure_image, snapshot_comment, snapshot_post, start_scan, upsert_comment, upsert_post,
    upsert_subreddit, Store,
};

#[test]
fn community_ids_are_get_or_create() {
    let mut st = Store::new();
    let a = upsert_subreddit(&mut st, "rust".to_string());
    let b = upsert_subreddit(&mut st, "python".to_string());
    let a2 = upsert_subreddit(&mut st, "rust".to_string());
    assert_eq!(a, 1);
    assert_eq!(b, 2);
    assert_eq!(a2, 1);
    assert_eq!(st.subreddits.len(), 2);
}

#[test]
fn start_scan_records_the_instant_as_id() {
    let mut st = Store::new();
    let id = start_scan(&mut st, 1700000000);
    assert_eq!(id, 1700000000);
    assert_eq!(st.scans.len(), 1);
    assert_eq!(st.scans[0].id, 1700000000);
    assert_eq!(st.scans[0].scanned_at, 1700000000);
}

fn put_post(st: &mut Store, id: &str, score: Option<i64>) {
    upsert_post(
        st,
        id.to_string(),
        1,
        "https://example.test/p".to_string(),
        Some("title".to_string()),
        Some("author".to_string()),
        score,
        Some(1700000000),
        None,
        Some(0),
    );
}

#[test]
fn upserting_the_same_post_twice_keeps_one_row_with_second_values() {
    let mut st = Store::new();
    put_post(&mut st, "p1", Some(10));
    put_post(&mut st, "p1", Some(40));
    assert_eq!(st.posts.len(), 1);
    assert_eq!(st.posts[0].id, "p1");
    assert_eq!(st.posts[0].score, Some(40));
}

#[test]
fn upserting_different_posts_keeps_both() {
    let mut st = Store::new();
    put_post(&mut st, "p1", Some(10));
    put_post(&mut st, "p2", Some(20));
    assert_eq!(st.posts.len(), 2);
}

#[test]
fn snapshots_accumulate_across_scans() {
    // Two snapshot rows for the same post under two scan ids are both kept,
    // each independently queryable by its scan id.
    let mut st = Store::new();
    snapshot_post(&mut st, "p1".to_string(), 1, Some(10), Some(0), Some(1700000000));
    snapshot_post(&mut st, "p1".to_string(), 2, Some(40), Some(3), Some(1700003600));
    assert_eq!(st.post_snapshots.len(), 2);
    let of_scan1: Vec<_> = st.post_snapshots.iter().filter(|s| s.scan_id == 1).collect();
    let of_scan2: Vec<_> = st.post_snapshots.iter().filter(|s| s.scan_id == 2).collect();
    assert_eq!(of_scan1.len(), 1);
    assert_eq!(of_scan2.len(), 1);
    assert_eq!(of_scan1[0].score, Some(10));
    assert_eq!(of_scan2[0].score, Some(40));
}

#[test]
fn snapshot_for_same_scan_is_replaced_not_duplicated() {
    let mut st = Store::new();
    snapshot_post(&mut st, "p1".to_string(), 1, Some(10), Some(0), None);
    snapshot_post(&mut st, "p1".to_string(), 1, Some(11), Some(1), None);
    assert_eq!(st.post_snapshots.len(), 1);
    assert_eq!(st.post_snapshots[0].score, Some(11));
}

#[test]
fn comment_snapshots_mirror_post_snapshots() {
    let mut st = Store::new();
    snapshot_comment(&mut st, "c1".to_string(), 1, Some(3), None);
    snapshot_comment(&mut st, "c1".to_string(), 2, Some(5), None);
    snapshot_comment(&mut st, "c1".to_string(), 2, Some(6), None);
    assert_eq!(st.comment_snapshots.len(), 2);
}

#[test]
fn comments_and_images_upsert_by_their_keys() {
    let mut st = Store::new();
    upsert_comment(
        &mut st,
        "c1".to_string(),
        "p1".to_string(),
        None,
        Some("me".to_string()),
        Some("hello".to_string()),
        Some(1),
        None,
    );
    upsert_comment(
        &mut st,
        "c1".to_string(),
        "p1".to_string(),
        None,
        Some("me".to_string()),
        Some("edited".to_string()),
        Some(2),
        None,
    );
    assert_eq!(st.comments.len(), 1);
    assert_eq!(st.comments[0].body.as_deref(), Some("edited"));

    ensure_image(&mut st, "p1".to_string(), "https://img.test/a".to_string(), None, None, None);
    ensure_image(
        &mut st,
        "p1".to_string(),
        "https://img.test/a".to_string(),
        Some("QUJD".to_string()),
        Some("image/png".to_string()),
        Some(3),
    );
    ensure_image(&mut st, "p1".to_string(), "https://img.test/b".to_string(), None, None, None);
    assert_eq!(st.images.len(), 2);
    let a: Vec<_> = st.images.iter().filter(|m| m.url == "https://img.test/a").collect();
    assert_eq!(a.len(), 1);
    assert_eq!(a[0].mime.as_deref(), Some("image/png"));
}
