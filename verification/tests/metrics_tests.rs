use redscan::metrics::{compute_comment_metrics, compute_post_metrics};
use redscan::store::{snapshot_comment, snapshot_post, upsert_comment, Store};

#[test]
fn metric_row_has_exact_deltas_and_velocities() {
    // Snapshot(scan 1, score 10, created T) and snapshot(scan 2, score 40,
    // created T + 3600) yield for scan 2: score_delta 30, dt 3600 s, a score
    // velocity of 30 per hour, and a composite virality of 0.6 * 30 = 18
    // with zero comment velocity.
    let t = 1700000000;
    let mut st = Store::new();
    snapshot_post(&mut st, "p1".to_string(), 1, Some(10), Some(0), Some(t));
    snapshot_post(&mut st, "p1".to_string(), 2, Some(40), Some(0), Some(t + 3600));
    compute_post_metrics(&mut st, 2);
    assert_eq!(st.post_metrics.len(), 1);
    let m = &st.post_metrics[0];
    assert_eq!(m.post_id, "p1");
    assert_eq!(m.scan_id, 2);
    assert_eq!(m.prev_scan_id, 1);
    assert_eq!(m.prev_score, Some(10));
    assert_eq!(m.score_delta, Some(30));
    assert_eq!(m.comments_delta, Some(0));
    assert_eq!(m.dt_seconds, Some(3600));
    let sv = m.score_vph.expect("score velocity should be defined");
    assert!(sv.equals_int(30));
    let cv = m.comments_vph.expect("comment velocity should be defined");
    assert!(cv.equals_int(0));
    assert!(m.virality.equals_int(18));
}

#[test]
fn first_seen_posts_get_no_metric_row() {
    let mut st = Store::new();
    snapshot_post(&mut st, "p1".to_string(), 1, Some(10), Some(0), Some(1700000000));
    compute_post_metrics(&mut st, 1);
    assert_eq!(st.post_metrics.len(), 0);
}

#[test]
fn metrics_use_most_recent_prior_scan() {
    let t = 1700000000;
    let mut st = Store::new();
    snapshot_post(&mut st, "p1".to_string(), 1, Some(1), None, Some(t));
    snapshot_post(&mut st, "p1".to_string(), 2, Some(5), None, Some(t + 100));
    snapshot_post(&mut st, "p1".to_string(), 3, Some(9), None, Some(t + 200));
    compute_post_metrics(&mut st, 3);
    assert_eq!(st.post_metrics.len(), 1);
    assert_eq!(st.post_metrics[0].prev_scan_id, 2);
    assert_eq!(st.post_metrics[0].score_delta, Some(4));
}

#[test]
fn zero_elapsed_time_leaves_velocities_undefined_and_virality_zero() {
    let t = 1700000000;
    let mut st = Store::new();
    snapshot_post(&mut st, "p1".to_string(), 1, Some(10), Some(0), Some(t));
    snapshot_post(&mut st, "p1".to_string(), 2, Some(40), Some(2), Some(t));
    compute_post_metrics(&mut st, 2);
    assert_eq!(st.post_metrics.len(), 1);
    let m = &st.post_metrics[0];
    assert_eq!(m.dt_seconds, Some(0));
    assert!(m.score_vph.is_none());
    assert!(m.comments_vph.is_none());
    assert!(m.virality.equals_int(0));
}

#[test]
fn recomputing_a_scan_does_not_duplicate_rows() {
    let t = 1700000000;
    let mut st = Store::new();
    snapshot_post(&mut st, "p1".to_string(), 1, Some(10), Some(0), Some(t));
    snapshot_post(&mut st, "p1".to_string(), 2, Some(40), Some(0), Some(t + 3600));
    compute_post_metrics(&mut st, 2);
    compute_post_metrics(&mut st, 2);
    assert_eq!(st.post_metrics.len(), 1);
}

#[test]
fn comment_metrics_join_back_to_the_owning_post() {
    let t = 1700000000;
    let mut st = Store::new();
    upsert_comment(
        &mut st,
        "c1".to_string(),
        "p1".to_string(),
        None,
        None,
        None,
        Some(2),
        Some(t),
    );
    snapshot_comment(&mut st, "c1".to_string(), 1, Some(2), Some(t));
    snapshot_comment(&mut st, "c1".to_string(), 2, Some(8), Some(t + 7200));
    compute_comment_metrics(&mut st, 2);
    assert_eq!(st.comment_metrics.len(), 1);
    let m = &st.comment_metrics[0];
    assert_eq!(m.comment_id, "c1");
    assert_eq!(m.post_id, "p1");
    assert_eq!(m.prev_scan_id, 1);
    assert_eq!(m.score_delta, Some(6));
    assert_eq!(m.dt_seconds, Some(7200));
    let sv = m.score_vph.expect("velocity should be defined");
    // 6 points over two hours: 3 per hour.
    assert!(sv.equals_int(3));
}

#[test]
fn comment_metrics_skip_comments_missing_from_the_comment_table() {
    let t = 1700000000;
    let mut st = Store::new();
    snapshot_comment(&mut st, "c9".to_string(), 1, Some(2), Some(t));
    snapshot_comment(&mut st, "c9".to_string(), 2, Some(8), Some(t + 7200));
    compute_comment_metrics(&mut st, 2);
    assert_eq!(st.comment_metrics.len(), 0);
}
