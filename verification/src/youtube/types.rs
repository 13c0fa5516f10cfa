use vstd::prelude::*;

use crate::media::types::{duration_text, push_duration};
use crate::text::{append_str, string_of};

verus! {

/// A video found by a YouTube search. `duration` is in whole seconds.
pub struct VideoInfo {
    pub id: String,
    pub title: String,
    pub channel: Option<String>,
    pub duration: Option<u64>,
    pub view_count: Option<u64>,
    pub thumbnail: Option<String>,
    pub url: String,
}

impl VideoInfo {
    /// `"{title} — {channel} [{duration}]"`, with `Unknown` for a missing
    /// channel and `LIVE` for a missing duration.
    pub open spec fn display_text(self) -> Seq<char> {
        self.title@ + " — "@ + match self.channel {
            Some(c) => c@,
            None => "Unknown"@,
        } + " ["@ + match self.duration {
            Some(d) => duration_text(d as nat),
            None => "LIVE"@,
        } + "]"@
    }

    /// The text shown for the video when it is displayed with `{}`.
    pub fn display_line(&self) -> (r: String)
        ensures
            r@ == self.display_text(),
    {
        let mut out: Vec<char> = Vec::new();
        append_str(&mut out, self.title.as_str());
        append_str(&mut out, " — ");
        match &self.channel {
            Some(c) => append_str(&mut out, c.as_str()),
            None => append_str(&mut out, "Unknown"),
        }
        append_str(&mut out, " [");
        match self.duration {
            Some(d) => push_duration(&mut out, d),
            None => append_str(&mut out, "LIVE"),
        }
        append_str(&mut out, "]");
        string_of(&out)
    }
}

/// A resolved audio stream.
pub struct StreamUrl {
    pub audio_url: String,
    pub format: String,
}

/// `H:MM:SS` when there is at least one hour, else `M:SS`.
pub fn format_duration(total_secs: u64) -> (r: String)
    ensures
        r@ == duration_text(total_secs as nat),
{
    let mut out: Vec<char> = Vec::new();
    push_duration(&mut out, total_secs);
    string_of(&out)
}

} // verus!
