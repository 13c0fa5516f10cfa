use vstd::prelude::*;

use super::transcript::{texts_within, Transcript};
use crate::media::types::{duration_text, push_duration, MediaInfo};
use crate::text::{
    append_range, append_str, chars_of, copy_range, decimal, find_from, find_from_exec,
    lemma_find_from, push_decimal, starts_with, starts_with_exec, string_of, trim, trim_chars,
    join,
};
use vstd::utf8::{decode_utf8, encode_utf8, is_char_boundary};

verus! {

/// One message of a conversation with the AI companion.
#[derive(Debug, Clone)]
pub struct ChatMessage {
    /// `"user"`, `"assistant"` or `"system"`.
    pub role: String,
    pub content: String,
}

pub open spec fn msg_view(m: ChatMessage) -> (Seq<char>, Seq<char>) {
    (m.role@, m.content@)
}

// ── JSON object extraction ──────────────────────────────────────────────

/// Scans `s` from `i` with brace `depth`, inside a string literal or not,
/// and after a backslash or not; the position just after the `}` that
/// brings the depth back to zero, or -1.
pub open spec fn brace_scan(s: Seq<char>, i: int, depth: int, in_string: bool, escape: bool) -> int
    decreases s.len() - i,
{
    if i < 0 || i >= s.len() {
        -1
    } else {
        let c = s[i];
        if escape {
            brace_scan(s, i + 1, depth, in_string, false)
        } else if c == '\\' && in_string {
            brace_scan(s, i + 1, depth, in_string, true)
        } else if c == '"' {
            brace_scan(s, i + 1, depth, !in_string, false)
        } else if c == '{' && !in_string {
            brace_scan(s, i + 1, depth + 1, in_string, false)
        } else if c == '}' && !in_string {
            if depth - 1 == 0 {
                i + 1
            } else {
                brace_scan(s, i + 1, depth - 1, in_string, false)
            }
        } else {
            brace_scan(s, i + 1, depth, in_string, false)
        }
    }
}

/// The span `[start, end)` of the outermost JSON object, by brace matching
/// from the first `{`.
pub open spec fn json_object_span(s: Seq<char>) -> Option<(int, int)> {
    let start = find_from(s, seq!['{'], 0);
    if start < 0 {
        None
    } else {
        let end = brace_scan(s, start, 0, false, false);
        if end < 0 {
            None
        } else {
            Some((start, end))
        }
    }
}

/// The brace scan either finds no closing brace or ends inside the text, after
/// where it started.
pub proof fn lemma_brace_scan(s: Seq<char>, i: int, depth: int, in_string: bool, escape: bool)
    requires
        0 <= i,
    ensures
        brace_scan(s, i, depth, in_string, escape) == -1 || (i < brace_scan(s, i, depth, in_string, escape) <= s.len()),
    decreases s.len() - i,
{
    if i < s.len() {
        let c = s[i];
        if escape {
            lemma_brace_scan(s, i + 1, depth, in_string, false);
        } else if c == '\\' && in_string {
            lemma_brace_scan(s, i + 1, depth, in_string, true);
        } else if c == '"' {
            lemma_brace_scan(s, i + 1, depth, !in_string, false);
        } else if c == '{' && !in_string {
            lemma_brace_scan(s, i + 1, depth + 1, in_string, false);
        } else if c == '}' && !in_string {
            if depth - 1 != 0 {
                lemma_brace_scan(s, i + 1, depth - 1, in_string, false);
            }
        } else {
            lemma_brace_scan(s, i + 1, depth, in_string, false);
        }
    }
}

/// Extract the outermost JSON object from text by brace matching; string
/// literals and their escapes are skipped.
pub fn extract_json_object(text: &str) -> (r: Option<&str>)
    ensures
        match json_object_span(text@) {
            None => r is None,
            Some(span) => r matches Some(o) && o@ == text@.subrange(span.0, span.1),
        },
{
    let cs = chars_of(text);
    let open = vec!['{'];
    assert(open@ == seq!['{']);
    let start = match find_from_exec(&cs, &open, 0) {
        None => return None,
        Some(k) => k,
    };
    proof {
        lemma_find_from(cs@, open@, 0);
        assert(cs@[start as int] == '{');
    }
    let n = cs.len();
    let mut depth: usize = 0;
    let mut in_string = false;
    let mut escape = false;
    let mut i = start;
    while i < n
        invariant
            n == cs@.len() == text@.len(),
            cs@ == text@,
            find_from(cs@, seq!['{'], 0) == start,
            start <= i <= n,
            start < n,
            cs@[start as int] == '{',
            depth <= i - start,
            i == start ==> depth == 0 && !in_string && !escape,
            i > start ==> depth >= 1,
            brace_scan(cs@, start as int, 0, false, false) == brace_scan(cs@, i as int, depth as int, in_string, escape),
        decreases n - i,
    {
        let ch = cs[i];
        let ghost d0 = depth as int;
        let ghost s0 = in_string;
        let ghost e0 = escape;
        if escape {
            escape = false;
        } else if ch == '\\' && in_string {
            escape = true;
        } else if ch == '"' {
            in_string = !in_string;
        } else if ch == '{' && !in_string {
            depth = depth + 1;
        } else if ch == '}' && !in_string {
            depth = depth - 1;
            if depth == 0 {
                assert(brace_scan(cs@, i as int, d0, s0, e0) == i + 1);
                assert(find_from(text@, seq!['{'], 0) == start);
                assert(brace_scan(text@, start as int, 0, false, false) == i + 1);
                assert(json_object_span(text@) == Some((start as int, i + 1)));
                return Some(text.substring_char(start, i + 1));
            }
        }
        i = i + 1;
    }
    None
}

// ── Truncation ──────────────────────────────────────────────────────────

/// `text` itself when its UTF-8 form has at most `max_bytes` bytes, else its
/// first `max_bytes` bytes followed by `... [truncated]`.
pub open spec fn truncated_text(text: Seq<char>, max_bytes: nat) -> Seq<char> {
    if encode_utf8(text).len() <= max_bytes {
        text
    } else {
        decode_utf8(encode_utf8(text).subrange(0, max_bytes as int)) + "... [truncated]"@
    }
}

/// Truncate `text` to `max_chars` bytes, marking the cut. A byte slice may
/// not split a character, so the cut must fall on a boundary.
pub fn truncate_text(text: &str, max_chars: usize) -> (r: String)
    requires
        encode_utf8(text@).len() <= max_chars || is_char_boundary(encode_utf8(text@), max_chars as int),
    ensures
        r@ == truncated_text(text@, max_chars as nat),
{
    broadcast use vstd::utf8::encode_utf8_decode_utf8;
    let bytes = text.as_bytes();
    if bytes.len() <= max_chars {
        let cs = chars_of(text);
        assert(encode_utf8(text@).len() <= max_chars);
        string_of(&cs)
    } else {
        let (head, _) = text.split_at(max_chars);
        assert(encode_utf8(head@) == encode_utf8(text@).subrange(0, max_chars as int));
        proof {
            vstd::utf8::encode_utf8_decode_utf8(head@);
        }
        assert(head@ == decode_utf8(encode_utf8(text@).subrange(0, max_chars as int)));
        let mut out = chars_of(head);
        append_str(&mut out, "... [truncated]");
        assert(encode_utf8(text@).len() > max_chars);
        assert(out@ == truncated_text(text@, max_chars as nat));
        string_of(&out)
    }
}

// ── Reading an AI reply ─────────────────────────────────────────────────

/// `s` with every leading copy of `p` removed (`str::trim_start_matches`).
pub open spec fn strip_prefixes(s: Seq<char>, p: Seq<char>) -> Seq<char>
    decreases s.len(),
{
    if p.len() > 0 && starts_with(s, p) {
        strip_prefixes(s.subrange(p.len() as int, s.len() as int), p)
    } else {
        s
    }
}

/// `s` ends with `p`.
pub open spec fn ends_with(s: Seq<char>, p: Seq<char>) -> bool {
    p.len() <= s.len() && s.subrange(s.len() - p.len(), s.len() as int) == p
}

/// `s` with every trailing copy of `p` removed (`str::trim_end_matches`).
pub open spec fn strip_suffixes(s: Seq<char>, p: Seq<char>) -> Seq<char>
    decreases s.len(),
{
    if p.len() > 0 && ends_with(s, p) {
        strip_suffixes(s.subrange(0, s.len() - p.len()), p)
    } else {
        s
    }
}

/// A reply wrapped in a Markdown code fence, with the fences removed.
pub open spec fn unfenced(t: Seq<char>) -> Seq<char> {
    trim(strip_suffixes(strip_prefixes(strip_prefixes(t, "```json"@), "```"@), "```"@))
}

/// The texts tried, in order, as the JSON envelope of an AI reply: the
/// trimmed reply; when it starts with a code fence, the reply without the
/// fences; and the outermost `{ ... }` found by brace matching.
pub open spec fn reply_candidates(raw: Seq<char>) -> Seq<Seq<char>> {
    let t = trim(raw);
    let first = seq![t];
    let fenced = if starts_with(t, "```"@) {
        first.push(unfenced(t))
    } else {
        first
    };
    match json_object_span(t) {
        Some(span) => fenced.push(t.subrange(span.0, span.1)),
        None => fenced,
    }
}

fn strip_prefixes_exec(s: &[char], p: &str) -> (r: Vec<char>)
    requires
        p@.len() > 0,
    ensures
        r@ == strip_prefixes(s@, p@),
{
    let pc = chars_of(p);
    let mut i: usize = 0;
    let n = s.len();
    assert(s@.subrange(0, n as int) == s@);
    while crate::text::matches_at_exec(s, &pc, i)
        invariant
            n == s@.len(),
            i <= n,
            pc@ == p@,
            pc@.len() > 0,
            strip_prefixes(s@, p@) == strip_prefixes(s@.subrange(i as int, n as int), p@),
        decreases n - i,
    {
        assert(s@.subrange(i as int, n as int).subrange(0, pc@.len() as int) == s@.subrange(i as int, i + pc@.len()));
        assert(s@.subrange(i as int, n as int).subrange(pc@.len() as int, n - i) == s@.subrange(i + pc@.len(), n as int));
        i = i + pc.len();
    }
    assert(!starts_with(s@.subrange(i as int, n as int), p@)) by {
        if starts_with(s@.subrange(i as int, n as int), p@) {
            assert(s@.subrange(i as int, n as int).subrange(0, pc@.len() as int) == s@.subrange(i as int, i + pc@.len()));
        }
    }
    copy_range(s, i, n)
}

fn strip_suffixes_exec(s: &[char], p: &str) -> (r: Vec<char>)
    requires
        p@.len() > 0,
    ensures
        r@ == strip_suffixes(s@, p@),
{
    let pc = chars_of(p);
    let m = pc.len();
    let mut j: usize = s.len();
    assert(s@.subrange(0, j as int) == s@);
    while j >= m && crate::text::matches_at_exec(s, &pc, j - m)
        invariant
            j <= s@.len(),
            pc@ == p@,
            m == pc@.len() > 0,
            strip_suffixes(s@, p@) == strip_suffixes(s@.subrange(0, j as int), p@),
        decreases j,
    {
        assert(s@.subrange(0, j as int).subrange(j - m, j as int) == s@.subrange(j - m, j as int));
        assert(s@.subrange(0, j as int).subrange(0, j - m) == s@.subrange(0, j - m));
        j = j - m;
    }
    assert(!ends_with(s@.subrange(0, j as int), p@)) by {
        if ends_with(s@.subrange(0, j as int), p@) {
            assert(s@.subrange(0, j as int).subrange(j - m, j as int) == s@.subrange(j - m, j as int));
        }
    }
    copy_range(s, 0, j)
}

/// The candidate JSON envelopes of an AI reply, in the order they are tried.
pub fn chat_response_candidates(raw: &str) -> (r: Vec<String>)
    ensures
        r@.len() == reply_candidates(raw@).len(),
        forall|k: int| 0 <= k < r@.len() ==> #[trigger] r@[k]@ == reply_candidates(raw@)[k],
{
    proof {
        reveal_strlit("```json");
        reveal_strlit("```");
    }
    let t = trim_chars(&chars_of(raw));
    let ts = string_of(&t);
    let mut out: Vec<String> = Vec::new();
    let ghost mut want: Seq<Seq<char>> = seq![t@];
    out.push(string_of(&t));
    if starts_with_exec(&t, "```") {
        let a = strip_prefixes_exec(&t, "```json");
        let b = strip_prefixes_exec(&a, "```");
        let c = strip_suffixes_exec(&b, "```");
        let d = trim_chars(&c);
        proof {
            want = want.push(d@);
        }
        out.push(string_of(&d));
    }
    assert(ts@.len() == t@.len());
    match extract_json_object(ts.as_str()) {
        Some(o) => {
            let oc = chars_of(o);
            proof {
                want = want.push(oc@);
            }
            out.push(string_of(&oc));
        },
        None => {},
    }
    assert(want == reply_candidates(raw@));
    out
}

// ── Conversation context ────────────────────────────────────────────────

/// The opening of every system prompt.
pub const PROMPT_INTRO: &'static str = "You are Aux 🎵, an AI music companion. Be conversational, fun, and helpful. Answer in the same language the user uses.\n\n";

/// The line used when nothing is playing.
pub const PROMPT_NO_TRACK: &'static str = "No track is currently playing. You can still search for music, play from results, and chat.\n";

/// The note used when the track has no transcript.
pub const PROMPT_NO_TRANSCRIPT: &'static str = "\n⚠️ No transcript available. You only know the video title and channel.\n";

/// How the AI must answer player commands.
pub const PLAYER_CONTROL_PROMPT: &'static str = r#"
## Player Control

You can control the music player. If the user's message is a player command (in ANY language), you MUST respond with ONLY valid JSON in this exact format:

{"action": {"type": "<action_type>", ...params}, "message": "<conversational reply>"}

For composing multiple actions (e.g. search then play), use an array:

{"action": [{"type": "search", "query": "..."}, {"type": "play_result", "index": 1}], "message": "..."}

If it's a normal question (not a player command), respond with:

{"action": null, "message": "<your answer>"}

Available actions:

### Playback
- {"type": "set_volume", "value": 0-100}
- {"type": "mute"}
- {"type": "pause"}
- {"type": "resume"}
- {"type": "seek", "seconds": <float, negative = rewind>}
- {"type": "next"} — play next in search results or queue
- {"type": "prev"} — play previous in search results
- {"type": "set_speed", "value": 0.25-4.0}
- {"type": "set_repeat", "mode": "off"|"one"|"all"}
- {"type": "toggle_shuffle"}
- {"type": "set_sleep", "minutes": <uint>}
- {"type": "cancel_sleep"}

### Search & Play
- {"type": "search", "query": "<search terms>"} — search for music (default source)
- {"type": "search", "query": "<search terms>", "source": "soundcloud"} — search on a specific source (youtube, soundcloud, ytmusic)
- {"type": "play_result", "index": <1-based>} — play item from search results
- {"type": "play_random"} — play random item from search results

### Library
- {"type": "add_favorite"} — add current track to favorites
- {"type": "remove_favorite"} — remove current track from favorites
- {"type": "add_to_queue"} — add current track to queue
- {"type": "clear_queue"} — clear the queue

### Playlist
- {"type": "create_playlist", "name": "<name>"} — create a new playlist
- {"type": "delete_playlist", "name": "<name>"} — delete a playlist
- {"type": "add_to_playlist", "playlist": "<name>"} — add current track to a playlist
- {"type": "play_playlist", "name": "<name>"} — load playlist into queue and play

### Navigation
- {"type": "show_panel", "panel": "<name>"} — show a panel (queue, favorites, history, lyrics, search, chat, playlists)

Examples:
- "find Shape of You" → {"action":{"type":"search","query":"Shape of You Ed Sheeran"},"message":"Searching for you! 🔍"}
- "find lofi on SoundCloud" → {"action":{"type":"search","query":"lofi beats","source":"soundcloud"},"message":"Searching SoundCloud! ☁️"}
- "search Adele on YT Music" → {"action":{"type":"search","query":"Adele","source":"ytmusic"},"message":"Searching YT Music! ♫"}
- "play Shape of You" → {"action":[{"type":"search","query":"Shape of You Ed Sheeran"},{"type":"play_result","index":1}],"message":"Searching and playing! 🎵"}
- "play random sad music" → {"action":[{"type":"search","query":"sad songs"},{"type":"play_random"}],"message":"Playing a random sad track! 🎲"}
- "play the 2nd one" → {"action":{"type":"play_result","index":2},"message":"Playing track #2! ▶️"}
- "next track" → {"action":{"type":"next"},"message":"Skipping to the next one! ⏭"}
- "add to favorites" → {"action":{"type":"add_favorite"},"message":"Added to favorites! ❤️"}
- "show queue" → {"action":{"type":"show_panel","panel":"queue"},"message":"Here's your queue! 📋"}
- "create playlist Chill" → {"action":{"type":"create_playlist","name":"Chill"},"message":"Created playlist Chill! 🎶"}
- "add to playlist Chill" → {"action":{"type":"add_to_playlist","playlist":"Chill"},"message":"Added to Chill! ➕"}
- "play playlist Chill" → {"action":{"type":"play_playlist","name":"Chill"},"message":"Playing playlist Chill! 🎵"}
- "pause" → {"action":{"type":"pause"},"message":"Paused! ⏸️"}
- "turn up the volume" → {"action":{"type":"set_volume","value":85},"message":"Volume set to 85%! 🔊"}

IMPORTANT: Your response must ALWAYS be valid JSON. Never add text outside the JSON object.
"#;

/// How many transcript seconds around the position go into the prompt.
pub const TRANSCRIPT_WINDOW_SECS: u64 = 300;

/// How many bytes of transcript go into the prompt.
pub const TRANSCRIPT_PROMPT_BYTES: usize = 3000;

/// How many earlier messages are sent with each request.
pub const HISTORY_WINDOW: usize = 10;

/// `"1. a\n2. b\n..."` for the items.
pub open spec fn numbered_lines(items: Seq<Seq<char>>) -> Seq<char>
    decreases items.len(),
{
    if items.len() == 0 {
        seq![]
    } else {
        numbered_lines(items.drop_last()) + decimal(items.len()) + ". "@ + items.last() + "\n"@
    }
}

pub open spec fn strings_view(v: Seq<String>) -> Seq<Seq<char>> {
    Seq::new(v.len(), |i: int| v[i]@)
}

/// What the AI knows about the track, its transcript and the search results.
pub struct VideoContext {
    pub video: MediaInfo,
    pub transcript: Option<Transcript>,
    /// Playback position in milliseconds.
    pub current_position: u64,
    pub chat_history: Vec<ChatMessage>,
    /// Current search results shown in the TUI, listed in the prompt so the
    /// AI can refer to them by index or title.
    pub search_results: Vec<String>,
}

impl VideoContext {
    pub fn new(video: MediaInfo, transcript: Option<Transcript>) -> (r: Self)
        ensures
            r.video == video,
            r.transcript == transcript,
            r.current_position == 0,
            r.chat_history@.len() == 0,
            r.search_results@.len() == 0,
    {
        VideoContext {
            video,
            transcript,
            current_position: 0,
            chat_history: Vec::new(),
            search_results: Vec::new(),
        }
    }

    /// The transcript text within the window around the current position.
    pub open spec fn transcript_context(self, t: Transcript) -> Seq<char> {
        let pos = self.current_position / 1000;
        join(
            texts_within(
                t.segments@,
                if pos >= TRANSCRIPT_WINDOW_SECS { pos - TRANSCRIPT_WINDOW_SECS } else { 0 },
                pos + TRANSCRIPT_WINDOW_SECS,
            ),
            " "@,
        )
    }

    /// The prompt can be built: the position plus the window fits in `u64`,
    /// and the transcript text is cut on a character boundary (a byte slice
    /// may not split a character).
    pub open spec fn prompt_buildable(self) -> bool {
        &&& self.current_position / 1000 + TRANSCRIPT_WINDOW_SECS <= u64::MAX
        &&& self.transcript matches Some(t) ==> ({
            let c = encode_utf8(self.transcript_context(t));
            c.len() <= TRANSCRIPT_PROMPT_BYTES || is_char_boundary(c, TRANSCRIPT_PROMPT_BYTES as int)
        })
    }

    /// Whether the system prompt can be built for the current state (see
    /// `prompt_buildable`).
    pub fn prompt_ready(&self) -> (r: bool)
        ensures
            r == self.prompt_buildable(),
    {
        if self.current_position / 1000 > u64::MAX - TRANSCRIPT_WINDOW_SECS {
            return false;
        }
        match &self.transcript {
            None => true,
            Some(t) => {
                let c = t.text_around(self.current_position, TRANSCRIPT_WINDOW_SECS);
                let s = c.as_str();
                s.as_bytes().len() <= TRANSCRIPT_PROMPT_BYTES || s.is_char_boundary(TRANSCRIPT_PROMPT_BYTES)
            },
        }
    }

    pub open spec fn video_part(self) -> Seq<char> {
        if self.video.id@.len() == 0 {
            PROMPT_NO_TRACK@
        } else {
            "Video: "@ + self.video.title@ + "\n"@ + match self.video.channel {
                Some(c) => "Channel: "@ + c@ + "\n"@,
                None => seq![],
            } + match self.video.duration {
                Some(d) => "Duration: "@ + duration_text(d as nat) + "\n"@,
                None => seq![],
            }
        }
    }

    pub open spec fn transcript_part(self) -> Seq<char> {
        match self.transcript {
            Some(t) => {
                let c = self.transcript_context(t);
                if c.len() > 0 {
                    "\nVideo transcript (around current position):\n"@ + truncated_text(
                        c,
                        TRANSCRIPT_PROMPT_BYTES as nat,
                    ) + "\n"@
                } else {
                    seq![]
                }
            },
            None => PROMPT_NO_TRANSCRIPT@,
        }
    }

    pub open spec fn results_part(self) -> Seq<char> {
        if self.search_results@.len() == 0 {
            seq![]
        } else {
            "\n## Current Search Results\n"@ + "Use play_result with the index to play one of these:\n"@
                + numbered_lines(strings_view(self.search_results@))
        }
    }

    /// The system prompt: persona, track, transcript excerpt, player-control
    /// instructions and current search results.
    pub open spec fn system_prompt(self) -> Seq<char> {
        PROMPT_INTRO@ + self.video_part() + self.transcript_part() + PLAYER_CONTROL_PROMPT@
            + self.results_part()
    }

    pub fn build_system_prompt(&self) -> (r: String)
        requires
            self.prompt_buildable(),
        ensures
            r@ == self.system_prompt(),
    {
        let mut out: Vec<char> = Vec::new();
        append_str(&mut out, PROMPT_INTRO);
        let ghost a0 = out@;
        if self.video.id.as_str().is_empty() {
            append_str(&mut out, PROMPT_NO_TRACK);
        } else {
            append_str(&mut out, "Video: ");
            append_str(&mut out, self.video.title.as_str());
            append_str(&mut out, "\n");
            match &self.video.channel {
                Some(c) => {
                    append_str(&mut out, "Channel: ");
                    append_str(&mut out, c.as_str());
                    append_str(&mut out, "\n");
                },
                None => {},
            }
            match self.video.duration {
                Some(d) => {
                    append_str(&mut out, "Duration: ");
                    push_duration(&mut out, d);
                    append_str(&mut out, "\n");
                },
                None => {},
            }
        }
        assert(out@ == PROMPT_INTRO@ + self.video_part());
        let ghost a1 = out@;
        match &self.transcript {
            Some(t) => {
                let context_text = t.text_around(self.current_position, TRANSCRIPT_WINDOW_SECS);
                if !context_text.as_str().is_empty() {
                    append_str(&mut out, "\nVideo transcript (around current position):\n");
                    let cut = truncate_text(context_text.as_str(), TRANSCRIPT_PROMPT_BYTES);
                    append_str(&mut out, cut.as_str());
                    append_str(&mut out, "\n");
                }
            },
            None => {
                append_str(&mut out, PROMPT_NO_TRANSCRIPT);
            },
        }
        assert(out@ == a1 + self.transcript_part());
        append_str(&mut out, PLAYER_CONTROL_PROMPT);
        let ghost a2 = out@;
        if self.search_results.len() > 0 {
            append_str(&mut out, "\n## Current Search Results\n");
            append_str(&mut out, "Use play_result with the index to play one of these:\n");
            let ghost a3 = out@;
            let ghost items = strings_view(self.search_results@);
            let mut i: usize = 0;
            while i < self.search_results.len()
                invariant
                    i <= self.search_results@.len(),
                    items == strings_view(self.search_results@),
                    out@ == a3 + numbered_lines(items.take(i as int)),
                decreases self.search_results@.len() - i,
            {
                assert(items.take(i + 1).drop_last() == items.take(i as int));
                push_decimal(&mut out, (i + 1) as u64);
                append_str(&mut out, ". ");
                append_str(&mut out, self.search_results[i].as_str());
                append_str(&mut out, "\n");
                i = i + 1;
            }
            assert(items.take(self.search_results@.len() as int) == items);
        }
        assert(out@ == a2 + self.results_part());
        string_of(&out)
    }

    /// The earlier messages sent with a request: the last ten of the history.
    pub open spec fn recent_history(self) -> Seq<ChatMessage> {
        let n = self.chat_history@.len();
        self.chat_history@.subrange(if n >= 10 { n - 10 } else { 0 }, n as int)
    }

    /// The messages of a request: the system prompt, the recent history and
    /// the user's message.
    pub fn build_messages(&self, user_message: &str) -> (r: Vec<ChatMessage>)
        requires
            self.prompt_buildable(),
        ensures
            r@.len() == self.recent_history().len() + 2,
            r@[0].role@ == "system"@,
            r@[0].content@ == self.system_prompt(),
            forall|k: int|
                0 <= k < self.recent_history().len() ==> #[trigger] msg_view(r@[k + 1]) == msg_view(
                    self.recent_history()[k],
                ),
            r@.last().role@ == "user"@,
            r@.last().content@ == user_message@,
    {
        let mut messages: Vec<ChatMessage> = Vec::new();
        let system = ChatMessage {
            role: string_of(&chars_of("system")),
            content: self.build_system_prompt(),
        };
        messages.push(system);
        let n = self.chat_history.len();
        let start = if n >= HISTORY_WINDOW {
            n - HISTORY_WINDOW
        } else {
            0
        };
        let mut i = start;
        while i < n
            invariant
                start <= i <= n == self.chat_history@.len(),
                start == (if n >= 10 { n - 10 } else { 0 }),
                messages@.len() == i - start + 1,
                messages@[0].role@ == "system"@,
                messages@[0].content@ == self.system_prompt(),
                forall|k: int|
                    0 <= k < i - start ==> #[trigger] msg_view(messages@[k + 1]) == msg_view(
                        self.chat_history@[start + k],
                    ),
            decreases n - i,
        {
            let m = &self.chat_history[i];
            let copy = ChatMessage {
                role: string_of(&chars_of(m.role.as_str())),
                content: string_of(&chars_of(m.content.as_str())),
            };
            messages.push(copy);
            i = i + 1;
        }
        let user = ChatMessage {
            role: string_of(&chars_of("user")),
            content: string_of(&chars_of(user_message)),
        };
        messages.push(user);
        messages
    }
}

} // verus!
