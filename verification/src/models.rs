//! The typed rows that workers extract from fetched pages and hand to the
//! write funnel.

use vstd::prelude::*;

verus! {

/// One crawled post, as extracted from its detail page.  The latest sighting
/// always wins: the store keeps exactly one current row per id.
#[derive(Debug, Clone)]
pub struct PostRow {
    pub id: String,
    pub url: String,
    pub title: Option<String>,
    pub author: Option<String>,
    pub score: Option<i64>,
    pub created_utc: Option<i64>,
    pub selftext: Option<String>,
    pub num_comments: Option<i64>,
}

/// One crawled comment, attached to a post.
#[derive(Debug, Clone)]
pub struct CommentRow {
    pub id: String,
    pub post_id: String,
    pub parent_fullname: Option<String>,
    pub author: Option<String>,
    pub body: Option<String>,
    pub score: Option<i64>,
    pub created_utc: Option<i64>,
}

/// A comment as the in-page extraction script reports it, before it is tied
/// to its owning post.
#[derive(Debug, Clone)]
pub struct JsPost {
    pub id: String,
    pub parent_fullname: Option<String>,
    pub author: Option<String>,
    pub body: Option<String>,
    pub score: Option<i64>,
    pub created_utc: Option<i64>,
}

} // verus!
