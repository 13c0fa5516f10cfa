use vstd::prelude::*;

verus! {

/// One play of a track, as stored in the listening history.
#[derive(Debug, Clone)]
pub struct HistoryEntry {
    pub video_id: String,
    pub title: String,
    pub channel: Option<String>,
    pub url: String,
    pub duration_secs: Option<i64>,
    pub listened_secs: i64,
    pub played_at: String,
    pub source: String,
}

} // verus!
