use vstd::prelude::*;

use super::types::StreamUrl;
use crate::text::{append_str, decimal, push_decimal, string_of, trim, trim_str};

verus! {

/// The yt-dlp command-line backend.
pub struct YtDlp;

impl YtDlp {
    pub fn new() -> (r: Self) {
        YtDlp
    }

    /// The search argument `"ytsearch{limit}:{query}"` passed to yt-dlp.
    pub fn search_query(limit: usize, query: &str) -> (r: String)
        ensures
            r@ == "ytsearch"@ + decimal(limit as nat) + ":"@ + query@,
    {
        let mut out: Vec<char> = Vec::new();
        append_str(&mut out, "ytsearch");
        push_decimal(&mut out, limit as u64);
        append_str(&mut out, ":");
        append_str(&mut out, query);
        string_of(&out)
    }

    /// The stream that `yt-dlp -g` printed: the trimmed output, or `None`
    /// when it is empty (no audio stream found).
    pub fn stream_from_output(stdout: &str) -> (r: Option<StreamUrl>)
        ensures
            trim(stdout@).len() == 0 <==> r is None,
            r matches Some(s) ==> s.audio_url@ == trim(stdout@) && s.format@ == "m4a"@,
    {
        let audio_url = trim_str(stdout);
        if audio_url.as_str().is_empty() {
            None
        } else {
            let mut f: Vec<char> = Vec::new();
            append_str(&mut f, "m4a");
            Some(StreamUrl { audio_url, format: string_of(&f) })
        }
    }
}

} // verus!
