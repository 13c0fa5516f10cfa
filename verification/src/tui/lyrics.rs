use vstd::prelude::*;

use crate::ai::transcript::{Transcript, TranscriptSegment};
use crate::text::{append_str, chars_eq, chars_of, decimal, push_decimal, push_two_digits, string_of, two_digits};

verus! {

/// Where a lyric line stands relative to the playback position.
#[derive(Debug, Clone, Copy, PartialEq, Eq, Structural)]
pub enum LineState {
    Past,
    Current,
    Upcoming,
}

/// One line of the lyrics panel: its state, its `[mm:ss]` stamp and text.
pub struct LyricLine {
    pub state: LineState,
    pub stamp: String,
    pub text: String,
}

/// The synced lyrics panel: its lines, the first line shown and the title.
pub struct LyricsView {
    pub lines: Vec<LyricLine>,
    pub scroll: u16,
    pub title: String,
}

/// What the lyrics panel shows.
pub enum LyricsPanel {
    /// No transcript, or one without segments.
    Empty,
    /// The video description stands in for subtitles: shown as one text.
    Description(String),
    Synced(LyricsView),
}

/// Whole seconds at which a segment starts.
pub open spec fn start_secs(seg: TranscriptSegment) -> int {
    seg.start as int / 1000
}

/// Seconds at which a segment ends, rounded up so that no gap opens at a
/// fractional second.
pub open spec fn end_secs(seg: TranscriptSegment) -> int {
    (seg.end as int + 999) / 1000
}

pub open spec fn line_state(seg: TranscriptSegment, pos_secs: int) -> LineState {
    if pos_secs >= start_secs(seg) && pos_secs < end_secs(seg) {
        LineState::Current
    } else if pos_secs >= end_secs(seg) {
        LineState::Past
    } else {
        LineState::Upcoming
    }
}

/// The last of the first `n` segments that is current, or 0 when none is.
pub open spec fn current_line(segs: Seq<TranscriptSegment>, pos_secs: int, n: int) -> int
    decreases n,
{
    if n <= 0 {
        0
    } else if line_state(segs[n - 1], pos_secs) == LineState::Current {
        n - 1
    } else {
        current_line(segs, pos_secs, n - 1)
    }
}

/// `"  [mm:ss] "` for a start second.
pub open spec fn stamp_text(secs: int) -> Seq<char> {
    "  ["@ + two_digits((secs / 60) as nat) + ":"@ + two_digits((secs % 60) as nat) + "] "@
}

/// The first line shown: centred on the current line while auto-scrolling,
/// else the manual offset. `height` is the panel's, borders included.
pub open spec fn scroll_for(current: int, auto_scroll: bool, manual: u16, height: u16) -> u16 {
    let visible = if height >= 2 { height - 2 } else { 0 };
    if auto_scroll {
        if current >= visible / 2 {
            (current - visible / 2) as u16
        } else {
            0
        }
    } else {
        manual
    }
}

pub open spec fn title_text(count: nat, auto_scroll: bool) -> Seq<char> {
    " Lyrics 🎵 ("@ + decimal(count) + (if auto_scroll {
        " segments) · auto "@
    } else {
        " segments) · manual "@
    })
}

fn segment_line(seg: &TranscriptSegment, pos_secs: u64) -> (r: LyricLine)
    ensures
        r.state == line_state(*seg, pos_secs as int),
        r.stamp@ == stamp_text(start_secs(*seg)),
        r.text@ == seg.text@,
{
    let start = seg.start / 1000;
    let end = seg.end / 1000 + if seg.end % 1000 != 0 { 1 } else { 0 };
    assert(end as int == end_secs(*seg));
    let state = if pos_secs >= start && pos_secs < end {
        LineState::Current
    } else if pos_secs >= end {
        LineState::Past
    } else {
        LineState::Upcoming
    };
    let mut stamp: Vec<char> = Vec::new();
    append_str(&mut stamp, "  [");
    push_two_digits(&mut stamp, start / 60);
    append_str(&mut stamp, ":");
    push_two_digits(&mut stamp, start % 60);
    append_str(&mut stamp, "] ");
    let t = chars_of(seg.text.as_str());
    LyricLine { state, stamp: string_of(&stamp), text: string_of(&t) }
}

/// The synced view of `segs` at `pos_secs`: one line per segment with its
/// state, the scroll offset, and the title.
pub fn synced_view(segs: &Vec<TranscriptSegment>, pos_secs: u64, auto_scroll: bool, manual_scroll: u16, height: u16) -> (r: LyricsView)
    ensures
        r.lines@.len() == segs@.len(),
        forall|i: int| 0 <= i < segs@.len() ==> {
            &&& (#[trigger] r.lines@[i]).state == line_state(segs@[i], pos_secs as int)
            &&& r.lines@[i].stamp@ == stamp_text(start_secs(segs@[i]))
            &&& r.lines@[i].text@ == segs@[i].text@
        },
        r.scroll == scroll_for(current_line(segs@, pos_secs as int, segs@.len() as int), auto_scroll, manual_scroll, height),
        r.title@ == title_text(segs@.len(), auto_scroll),
{
    let mut lines: Vec<LyricLine> = Vec::new();
    let mut current: usize = 0;
    let mut i: usize = 0;
    while i < segs.len()
        invariant
            i <= segs@.len(),
            lines@.len() == i,
            current as int == current_line(segs@, pos_secs as int, i as int),
            current <= i,
            forall|k: int| 0 <= k < i ==> {
                &&& (#[trigger] lines@[k]).state == line_state(segs@[k], pos_secs as int)
                &&& lines@[k].stamp@ == stamp_text(start_secs(segs@[k]))
                &&& lines@[k].text@ == segs@[k].text@
            },
        decreases segs@.len() - i,
    {
        let line = segment_line(&segs[i], pos_secs);
        if line.state == LineState::Current {
            current = i;
        }
        lines.push(line);
        i = i + 1;
    }
    let visible: u16 = if height >= 2 { height - 2 } else { 0 };
    let half = (visible / 2) as usize;
    let scroll = if auto_scroll {
        if current >= half {
            #[verifier::truncate]
            ((current - half) as u16)
        } else {
            0
        }
    } else {
        manual_scroll
    };
    let mut title: Vec<char> = Vec::new();
    append_str(&mut title, " Lyrics 🎵 (");
    push_decimal(&mut title, segs.len() as u64);
    if auto_scroll {
        append_str(&mut title, " segments) · auto ");
    } else {
        append_str(&mut title, " segments) · manual ");
    }
    LyricsView { lines, scroll, title: string_of(&title) }
}

/// What the lyrics panel shows for the loaded transcript.
pub fn lyrics_panel(transcript: &Option<Transcript>, pos_secs: u64, auto_scroll: bool, manual_scroll: u16, height: u16) -> (r: LyricsPanel)
    ensures
        match *transcript {
            None => r is Empty,
            Some(t) => if t.segments@.len() == 0 {
                r is Empty
            } else if t.language@ == "description"@ {
                r matches LyricsPanel::Description(text) && text@ == t.segments@[0].text@
            } else {
                r matches LyricsPanel::Synced(v) && v.lines@.len() == t.segments@.len() && (forall|i: int|
                    0 <= i < t.segments@.len() ==> {
                        &&& (#[trigger] v.lines@[i]).state == line_state(t.segments@[i], pos_secs as int)
                        &&& v.lines@[i].stamp@ == stamp_text(start_secs(t.segments@[i]))
                        &&& v.lines@[i].text@ == t.segments@[i].text@
                    }) && v.scroll == scroll_for(
                    current_line(t.segments@, pos_secs as int, t.segments@.len() as int),
                    auto_scroll,
                    manual_scroll,
                    height,
                ) && v.title@ == title_text(t.segments@.len(), auto_scroll)
            },
        },
{
    match transcript {
        None => LyricsPanel::Empty,
        Some(t) => {
            if t.segments.len() == 0 {
                LyricsPanel::Empty
            } else if chars_eq(&chars_of(t.language.as_str()), "description") {
                let first = chars_of(t.segments[0].text.as_str());
                LyricsPanel::Description(string_of(&first))
            } else {
                LyricsPanel::Synced(synced_view(&t.segments, pos_secs, auto_scroll, manual_scroll, height))
            }
        },
    }
}

/// The first segment playing at `pos_ms` (start inclusive, end exclusive).
pub open spec fn segment_at(segs: Seq<TranscriptSegment>, pos_ms: int, from: int) -> Option<int>
    decreases segs.len() - from,
{
    if from >= segs.len() || from < 0 {
        None
    } else if segs[from].start <= pos_ms && pos_ms < segs[from].end {
        Some(from)
    } else {
        segment_at(segs, pos_ms, from + 1)
    }
}

/// The subtitle line of the command-line player: the text of the first
/// segment playing at `pos_ms`, or nothing.
pub fn subtitle_at(segs: &Vec<TranscriptSegment>, pos_ms: u64) -> (r: String)
    ensures
        r@ == match segment_at(segs@, pos_ms as int, 0) {
            Some(i) => segs@[i].text@,
            None => Seq::<char>::empty(),
        },
{
    let mut i: usize = 0;
    while i < segs.len()
        invariant
            i <= segs@.len(),
            segment_at(segs@, pos_ms as int, 0) == segment_at(segs@, pos_ms as int, i as int),
        decreases segs@.len() - i,
    {
        if segs[i].start <= pos_ms && pos_ms < segs[i].end {
            let t = chars_of(segs[i].text.as_str());
            return string_of(&t);
        }
        i = i + 1;
    }
    String::new()
}

} // verus!
