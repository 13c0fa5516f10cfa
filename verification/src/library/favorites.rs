use vstd::prelude::*;

verus! {

/// A favourite track as stored in the library.
#[derive(Debug, Clone)]
pub struct FavoriteEntry {
    pub video_id: String,
    pub title: String,
    pub channel: Option<String>,
    pub url: String,
    pub duration_secs: Option<i64>,
    pub added_at: String,
    pub source: String,
}

} // verus!
