use vstd::prelude::*;

use super::source::{source_of_extractor, Source};
use crate::text::{append_str, decimal, lowercase, push_decimal, push_two_digits, string_of, two_digits};

verus! {

/// A playable item found by the media backend. `duration` is in whole seconds.
pub struct MediaInfo {
    pub id: String,
    pub title: String,
    pub channel: Option<String>,
    pub duration: Option<u64>,
    pub view_count: Option<u64>,
    pub thumbnail: Option<String>,
    pub url: String,
    /// Video description, the fallback when no subtitles are available.
    pub description: Option<String>,
    /// Detected from the extractor key.
    pub source: Source,
    /// Raw extractor key reported by yt-dlp.
    pub extractor_key: Option<String>,
}

fn clone_opt_string(o: &Option<String>) -> (r: Option<String>)
    ensures
        r == *o,
{
    match o {
        Some(s) => Some(s.clone()),
        None => None,
    }
}

impl Clone for MediaInfo {
    fn clone(&self) -> (r: Self)
        ensures
            r == *self,
    {
        MediaInfo {
            id: self.id.clone(),
            title: self.title.clone(),
            channel: clone_opt_string(&self.channel),
            duration: self.duration,
            view_count: self.view_count,
            thumbnail: clone_opt_string(&self.thumbnail),
            url: self.url.clone(),
            description: clone_opt_string(&self.description),
            source: self.source,
            extractor_key: clone_opt_string(&self.extractor_key),
        }
    }
}

impl MediaInfo {
    /// Populate `source` from `extractor_key`, when there is one.
    pub fn resolve_source(&mut self)
        ensures
            final(self).id == old(self).id,
            final(self).title == old(self).title,
            final(self).channel == old(self).channel,
            final(self).duration == old(self).duration,
            final(self).view_count == old(self).view_count,
            final(self).thumbnail == old(self).thumbnail,
            final(self).url == old(self).url,
            final(self).description == old(self).description,
            final(self).extractor_key == old(self).extractor_key,
            final(self).source == match old(self).extractor_key {
                Some(k) => source_of_extractor(lowercase(k@)),
                None => old(self).source,
            },
    {
        if let Some(key) = &self.extractor_key {
            self.source = Source::from_extractor_key(key.as_str());
        }
    }

    /// The one-line description `"{icon} {title} — {channel} [{duration}]"`,
    /// with `Unknown` for a missing channel and `LIVE` for a missing duration.
    pub open spec fn display_text(self) -> Seq<char> {
        self.source.icon_text() + " "@ + self.title@ + " — "@ + match self.channel {
            Some(c) => c@,
            None => "Unknown"@,
        } + " ["@ + match self.duration {
            Some(d) => duration_text(d as nat),
            None => "LIVE"@,
        } + "]"@
    }

    /// The text shown for the item when it is displayed with `{}`.
    pub fn display_line(&self) -> (r: String)
        ensures
            r@ == self.display_text(),
    {
        let mut out: Vec<char> = Vec::new();
        append_str(&mut out, self.source.icon());
        append_str(&mut out, " ");
        append_str(&mut out, self.title.as_str());
        append_str(&mut out, " — ");
        match &self.channel {
            Some(c) => append_str(&mut out, c.as_str()),
            None => append_str(&mut out, "Unknown"),
        }
        append_str(&mut out, " [");
        match self.duration {
            Some(d) => push_duration(&mut out, d),
            None => append_str(&mut out, "LIVE"),
        }
        append_str(&mut out, "]");
        string_of(&out)
    }
}

/// A resolved audio stream.
pub struct StreamUrl {
    pub audio_url: String,
    pub format: String,
}

/// `H:MM:SS` when there is at least one hour, else `M:SS`.
pub open spec fn duration_text(total_secs: nat) -> Seq<char> {
    let hours = total_secs / 3600;
    let minutes = (total_secs % 3600) / 60;
    let seconds = total_secs % 60;
    if hours > 0 {
        decimal(hours) + ":"@ + two_digits(minutes) + ":"@ + two_digits(seconds)
    } else {
        decimal(minutes) + ":"@ + two_digits(seconds)
    }
}

pub fn push_duration(out: &mut Vec<char>, total_secs: u64)
    ensures
        final(out)@ == old(out)@ + duration_text(total_secs as nat),
{
    let hours = total_secs / 3600;
    let minutes = (total_secs % 3600) / 60;
    let seconds = total_secs % 60;
    if hours > 0 {
        push_decimal(out, hours);
        append_str(out, ":");
        push_two_digits(out, minutes);
        append_str(out, ":");
        push_two_digits(out, seconds);
    } else {
        push_decimal(out, minutes);
        append_str(out, ":");
        push_two_digits(out, seconds);
    }
}

pub fn format_duration(total_secs: u64) -> (r: String)
    ensures
        r@ == duration_text(total_secs as nat),
{
    let mut out: Vec<char> = Vec::new();
    push_duration(&mut out, total_secs);
    string_of(&out)
}

} // verus!
