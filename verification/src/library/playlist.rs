use vstd::prelude::*;

use crate::youtube::types::VideoInfo;
use crate::text::{chars_of, string_of};

verus! {

/// A named playlist with the number of tracks in it.
#[derive(Debug, Clone)]
pub struct Playlist {
    pub id: i64,
    pub name: String,
    pub created_at: String,
    pub item_count: usize,
}

/// A track in a playlist.
#[derive(Debug, Clone)]
pub struct PlaylistItem {
    pub id: i64,
    pub video_id: String,
    pub title: String,
    pub channel: Option<String>,
    pub url: String,
    pub duration_secs: Option<i64>,
    pub position: i64,
}

pub open spec fn opt_string_view(o: Option<String>) -> Option<Seq<char>> {
    match o {
        Some(s) => Some(s@),
        None => None,
    }
}

fn copy_string(s: &String) -> (r: String)
    ensures
        r@ == s@,
{
    string_of(&chars_of(s.as_str()))
}

impl PlaylistItem {
    /// The item as a video to queue; a negative stored duration is dropped.
    pub fn to_video(&self) -> (r: VideoInfo)
        ensures
            r.id@ == self.video_id@,
            r.title@ == self.title@,
            opt_string_view(r.channel) == opt_string_view(self.channel),
            r.url@ == self.url@,
            r.duration == match self.duration_secs {
                Some(d) => if d >= 0 { Some(d as u64) } else { None },
                None => None,
            },
            r.view_count is None,
            r.thumbnail is None,
    {
        VideoInfo {
            id: copy_string(&self.video_id),
            title: copy_string(&self.title),
            channel: match &self.channel {
                Some(c) => Some(copy_string(c)),
                None => None,
            },
            duration: match self.duration_secs {
                Some(d) => if d >= 0 {
                    Some(d as u64)
                } else {
                    None
                },
                None => None,
            },
            view_count: None,
            thumbnail: None,
            url: copy_string(&self.url),
        }
    }
}

} // verus!
