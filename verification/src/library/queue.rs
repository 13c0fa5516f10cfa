use vstd::prelude::*;

verus! {

/// A track waiting in the play queue.
#[derive(Debug, Clone)]
pub struct QueueEntry {
    pub id: i64,
    pub video_id: String,
    pub title: String,
    pub channel: Option<String>,
    pub url: String,
    pub duration_secs: Option<i64>,
    pub position: i64,
}

/// Where a track goes when it is appended to a list whose largest position
/// is `max_position` (0 for an empty list): right after it, unless the
/// track is already there (`already_present > 0`), in which case it is not
/// added again.
pub fn append_position(already_present: i64, max_position: i64) -> (r: Option<i64>)
    requires
        already_present > 0 || max_position < i64::MAX,
    ensures
        already_present > 0 <==> r is None,
        r matches Some(p) ==> p == max_position + 1,
{
    if already_present > 0 {
        None
    } else {
        Some(max_position + 1)
    }
}

} // verus!
