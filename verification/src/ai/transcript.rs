use vstd::prelude::*;

use crate::text::{
    append_range, chars_of, contains, contains_char, contains_exec, copy_range, find_from,
    find_from_exec, join, join_chars, lemma_find_from, lines, lines_exec, remove_all,
    remove_all_exec, starts_with, starts_with_exec, string_of, trim, trim_chars, is_ws, lemma_trim_shape,
};

verus! {

/// A timed transcript of a track; times are in milliseconds.
#[derive(Debug, Clone)]
pub struct Transcript {
    pub language: String,
    pub segments: Vec<TranscriptSegment>,
}

/// One timed line of a transcript; `start` and `end` are in milliseconds.
#[derive(Debug, Clone)]
pub struct TranscriptSegment {
    pub start: u64,
    pub end: u64,
    pub text: String,
}

/// A segment as plain values: (start, end, text).
pub open spec fn seg_view(s: TranscriptSegment) -> (u64, u64, Seq<char>) {
    (s.start, s.end, s.text@)
}

pub open spec fn segs_view(v: Seq<TranscriptSegment>) -> Seq<(u64, u64, Seq<char>)> {
    Seq::new(v.len(), |i: int| seg_view(v[i]))
}

pub open spec fn texts_of(v: Seq<TranscriptSegment>) -> Seq<Seq<char>> {
    Seq::new(v.len(), |i: int| v[i].text@)
}

/// The texts of the segments lying wholly inside `[from, to]` (whole seconds).
pub open spec fn texts_within(v: Seq<TranscriptSegment>, from: int, to: int) -> Seq<Seq<char>>
    decreases v.len(),
{
    if v.len() == 0 {
        seq![]
    } else {
        let rest = texts_within(v.drop_last(), from, to);
        let s = v.last();
        if s.start / 1000 >= from && s.end / 1000 <= to {
            rest.push(s.text@)
        } else {
            rest
        }
    }
}

impl Transcript {
    /// The full transcript as plain text: the segment texts joined by spaces.
    pub fn full_text(&self) -> (r: String)
        ensures
            r@ == join(texts_of(self.segments@), " "@),
    {
        let mut parts: Vec<Vec<char>> = Vec::new();
        let mut i: usize = 0;
        while i < self.segments.len()
            invariant
                i <= self.segments@.len(),
                parts@.len() == i,
                forall|j: int| 0 <= j < i ==> #[trigger] parts@[j]@ == self.segments@[j].text@,
            decreases self.segments@.len() - i,
        {
            parts.push(chars_of(self.segments[i].text.as_str()));
            i = i + 1;
        }
        let joined = join_chars(&parts, " ");
        assert(Seq::new(parts@.len(), |i: int| parts@[i]@) == texts_of(self.segments@));
        string_of(&joined)
    }

    /// The text of the segments within `window_secs` of `position_ms`, at
    /// whole-second granularity, joined by spaces.
    pub fn text_around(&self, position_ms: u64, window_secs: u64) -> (r: String)
        requires
            position_ms / 1000 + window_secs <= u64::MAX,
        ensures
            r@ == join(
                texts_within(
                    self.segments@,
                    if position_ms / 1000 >= window_secs {
                        position_ms / 1000 - window_secs
                    } else {
                        0
                    },
                    position_ms / 1000 + window_secs,
                ),
                " "@,
            ),
    {
        let pos = position_ms / 1000;
        let start = if pos >= window_secs {
            pos - window_secs
        } else {
            0
        };
        let end = pos + window_secs;
        let mut parts: Vec<Vec<char>> = Vec::new();
        let mut i: usize = 0;
        while i < self.segments.len()
            invariant
                i <= self.segments@.len(),
                parts@.len() == texts_within(self.segments@.take(i as int), start as int, end as int).len(),
                forall|j: int|
                    0 <= j < parts@.len() ==> #[trigger] parts@[j]@ == texts_within(
                        self.segments@.take(i as int),
                        start as int,
                        end as int,
                    )[j],
            decreases self.segments@.len() - i,
        {
            let seg = &self.segments[i];
            assert(self.segments@.take(i + 1).drop_last() == self.segments@.take(i as int));
            if seg.start / 1000 >= start && seg.end / 1000 <= end {
                parts.push(chars_of(seg.text.as_str()));
            }
            i = i + 1;
        }
        assert(self.segments@.take(self.segments@.len() as int) == self.segments@);
        let ghost t = texts_within(self.segments@, start as int, end as int);
        assert(Seq::new(parts@.len(), |i: int| parts@[i]@) == t);
        let joined = join_chars(&parts, " ");
        string_of(&joined)
    }
}

// ── Tag stripping ───────────────────────────────────────────────────────

/// The characters of `s[i..]` outside `<...>` tags, given whether position
/// `i` starts inside a tag.
pub open spec fn untagged_from(s: Seq<char>, i: int, in_tag: bool) -> Seq<char>
    decreases s.len() - i,
{
    if i < 0 || i >= s.len() {
        seq![]
    } else if s[i] == '<' {
        untagged_from(s, i + 1, true)
    } else if s[i] == '>' {
        untagged_from(s, i + 1, false)
    } else if in_tag {
        untagged_from(s, i + 1, in_tag)
    } else {
        seq![s[i]] + untagged_from(s, i + 1, in_tag)
    }
}

/// `text` without HTML/VTT tags, trimmed.
pub open spec fn stripped_text(s: Seq<char>) -> Seq<char> {
    trim(untagged_from(s, 0, false))
}

/// No `<` or `>` in `s`.
pub open spec fn bracket_free(s: Seq<char>) -> bool {
    forall|k: int| 0 <= k < s.len() ==> #[trigger] s[k] != '<' && s[k] != '>'
}

proof fn lemma_untagged_bracket_free(s: Seq<char>, i: int, in_tag: bool)
    ensures
        bracket_free(untagged_from(s, i, in_tag)),
    decreases s.len() - i,
{
    if 0 <= i < s.len() {
        lemma_untagged_bracket_free(s, i + 1, s[i] == '<' || (s[i] != '>' && in_tag));
        if s[i] != '<' && s[i] != '>' && !in_tag {
            let rest = untagged_from(s, i + 1, in_tag);
            assert forall|k: int| 0 <= k < rest.len() + 1 implies #[trigger] (seq![s[i]] + rest)[k] != '<' && (seq![
                s[i],
            ] + rest)[k] != '>' by {
                if k > 0 {
                    assert((seq![s[i]] + rest)[k] == rest[k - 1]);
                }
            }
        }
    }
}

proof fn lemma_untagged_of_plain(s: Seq<char>, i: int)
    requires
        bracket_free(s),
        0 <= i <= s.len(),
    ensures
        untagged_from(s, i, false) == s.subrange(i, s.len() as int),
    decreases s.len() - i,
{
    if i < s.len() {
        assert(s[i] != '<' && s[i] != '>');
        lemma_untagged_of_plain(s, i + 1);
        assert(seq![s[i]] + s.subrange(i + 1, s.len() as int) == s.subrange(i, s.len() as int));
    }
}

/// Stripped text holds no `<` or `>`, has no whitespace at either end, and
/// stripping it again changes nothing.
pub proof fn lemma_stripped_text_clean(s: Seq<char>)
    ensures
        bracket_free(stripped_text(s)),
        stripped_text(s).len() > 0 ==> !is_ws(stripped_text(s)[0]) && !is_ws(stripped_text(s).last()),
        stripped_text(stripped_text(s)) == stripped_text(s),
{
    let u = untagged_from(s, 0, false);
    let r = stripped_text(s);
    lemma_untagged_bracket_free(s, 0, false);
    lemma_trim_shape(u);
    let (a, b) = choose|a: int, b: int| 0 <= a <= b <= u.len() && trim(u) == u.subrange(a, b);
    assert forall|k: int| 0 <= k < r.len() implies #[trigger] r[k] != '<' && r[k] != '>' by {
        assert(r[k] == u[a + k]);
    }
    lemma_untagged_of_plain(r, 0);
    assert(r.subrange(0, r.len() as int) == r);
    lemma_trim_shape(u);
}

fn strip_tags_chars(text: &[char]) -> (r: Vec<char>)
    ensures
        r@ == stripped_text(text@),
{
    let mut out: Vec<char> = Vec::new();
    let mut in_tag = false;
    let mut i: usize = 0;
    while i < text.len()
        invariant
            i <= text@.len(),
            untagged_from(text@, 0, false) == out@ + untagged_from(text@, i as int, in_tag),
        decreases text@.len() - i,
    {
        let ch = text[i];
        if ch == '<' {
            in_tag = true;
        } else if ch == '>' {
            in_tag = false;
        } else if !in_tag {
            out.push(ch);
        }
        i = i + 1;
    }
    trim_chars(&out)
}

/// Remove HTML/VTT tags from text, then trim it.
pub fn strip_vtt_tags(text: &str) -> (r: String)
    ensures
        r@ == stripped_text(text@),
{
    let cs = chars_of(text);
    let out = strip_tags_chars(&cs);
    string_of(&out)
}

// ── Cue parsing ─────────────────────────────────────────────────────────

/// A cue read from a WebVTT file: its two raw (trimmed) timestamps and its text.
pub struct VttCue {
    pub start: String,
    pub end: String,
    pub text: String,
}

pub open spec fn cue_view(c: VttCue) -> (Seq<char>, Seq<char>, Seq<char>) {
    (c.start@, c.end@, c.text@)
}

/// The two sides of a timing line when splitting its trimmed text at
/// `-->` gives exactly two pieces.
pub open spec fn split_arrow(line: Seq<char>) -> Option<(Seq<char>, Seq<char>)> {
    let t = trim(line);
    let k = find_from(t, "-->"@, 0);
    if k >= 0 && find_from(t, "-->"@, k + 3) < 0 {
        Some((t.subrange(0, k), t.subrange(k + 3, t.len() as int)))
    } else {
        None
    }
}

/// The first line at or after `j` that ends a cue's text block: a blank
/// line, a timing line, or the end of the file.
pub open spec fn text_block_end(ls: Seq<Seq<char>>, j: int) -> int
    decreases ls.len() - j,
{
    if j < 0 || j >= ls.len() {
        ls.len() as int
    } else if trim(ls[j]).len() == 0 || contains(ls[j], "-->"@) {
        j
    } else {
        text_block_end(ls, j + 1)
    }
}

/// What a text line of a cue contributes: with `<c>` and `</c>` removed, a
/// line that starts with `<` and has no space is an inline timestamp and is
/// dropped; otherwise its untagged text, when not empty.
pub open spec fn cue_text_piece(line: Seq<char>) -> Option<Seq<char>> {
    let t = remove_all(remove_all(trim(line), "<c>"@), "</c>"@);
    if !starts_with(t, "<"@) || contains(t, " "@) {
        let c = stripped_text(t);
        if c.len() > 0 {
            Some(c)
        } else {
            None
        }
    } else {
        None
    }
}

/// The pieces contributed by lines `a..b`.
pub open spec fn cue_texts(ls: Seq<Seq<char>>, a: int, b: int) -> Seq<Seq<char>>
    decreases b - a,
{
    if b <= a {
        seq![]
    } else {
        let prev = cue_texts(ls, a, b - 1);
        match cue_text_piece(ls[b - 1]) {
            Some(c) => prev.push(c),
            None => prev,
        }
    }
}

/// The cues of the lines from `i` on. After a cue's text block, the line
/// that ended it is skipped as well.
pub open spec fn cues_from(ls: Seq<Seq<char>>, i: int) -> Seq<(Seq<char>, Seq<char>, Seq<char>)>
    decreases ls.len() + 1 - i,
{
    if i < 0 || i >= ls.len() {
        seq![]
    } else if !contains(trim(ls[i]), "-->"@) {
        cues_from(ls, i + 1)
    } else {
        match split_arrow(ls[i]) {
            None => cues_from(ls, i + 1),
            Some(parts) => {
                let j = text_block_end(ls, i + 1);
                proof {
                    lemma_text_block_end(ls, i + 1);
                }
                seq![(trim(parts.0), trim(parts.1), join(cue_texts(ls, i + 1, j), " "@))]
                    + cues_from(ls, j + 1)
            },
        }
    }
}

/// The cues of a WebVTT document.
pub open spec fn vtt_cues(content: Seq<char>) -> Seq<(Seq<char>, Seq<char>, Seq<char>)> {
    cues_from(lines(content), 0)
}

/// A cue's text block ends no earlier than it starts and within the lines.
pub proof fn lemma_text_block_end(ls: Seq<Seq<char>>, j: int)
    requires
        0 <= j,
    ensures
        j <= text_block_end(ls, j) <= ls.len() || (j > ls.len() && text_block_end(ls, j)
            == ls.len()),
    decreases ls.len() - j,
{
    if j < ls.len() && !(trim(ls[j]).len() == 0 || contains(ls[j], "-->"@)) {
        lemma_text_block_end(ls, j + 1);
    }
}

fn split_arrow_exec(line: &[char]) -> (r: Option<(Vec<char>, Vec<char>)>)
    ensures
        match split_arrow(line@) {
            None => r is None,
            Some(p) => r matches Some(q) && q.0@ == p.0 && q.1@ == p.1,
        },
{
    let t = trim_chars(line);
    let arrow = chars_of("-->");
    proof {
        reveal_strlit("-->");
    }
    match find_from_exec(&t, &arrow, 0) {
        None => None,
        Some(k) => {
            proof {
                lemma_find_from(t@, arrow@, 0);
            }
            let tn = t.len();
            assert(k + 3 <= tn);
            let after = k + 3;
            match find_from_exec(&t, &arrow, after) {
                Some(_) => None,
                None => Some((copy_range(&t, 0, k), copy_range(&t, after, tn))),
            }
        },
    }
}

fn cue_text_piece_exec(line: &[char]) -> (r: Option<Vec<char>>)
    ensures
        match cue_text_piece(line@) {
            None => r is None,
            Some(p) => r matches Some(q) && q@ == p,
        },
{
    proof {
        reveal_strlit("<c>");
        reveal_strlit("</c>");
        reveal_strlit(" ");
    }
    let t0 = trim_chars(line);
    let t1 = remove_all_exec(&t0, "<c>");
    let t = remove_all_exec(&t1, "</c>");
    if !starts_with_exec(&t, "<") || contains_char(&t, ' ') {
        assert(seq![' '] == " "@);
        let c = strip_tags_chars(&t);
        if c.len() > 0 {
            Some(c)
        } else {
            None
        }
    } else {
        assert(seq![' '] == " "@);
        None
    }
}

fn is_blank(line: &[char]) -> (r: bool)
    ensures
        r == (trim(line@).len() == 0),
{
    let t = trim_chars(line);
    t.len() == 0
}

/// Split a WebVTT document into cues: a timing line `a --> b` followed by
/// its text lines up to a blank line or the next timing line.
pub fn parse_vtt_cues(content: &str) -> (r: Vec<VttCue>)
    ensures
        r@.len() == vtt_cues(content@).len(),
        forall|k: int| 0 <= k < r@.len() ==> #[trigger] cue_view(r@[k]) == vtt_cues(content@)[k],
{
    let cs = chars_of(content);
    let ls = lines_exec(&cs);
    let ghost lv = Seq::new(ls@.len(), |j: int| ls@[j]@);
    assert(lv == lines(content@));
    let n = ls.len();
    let mut out: Vec<VttCue> = Vec::new();
    let ghost mut done: Seq<(Seq<char>, Seq<char>, Seq<char>)> = seq![];
    let mut i: usize = 0;
    while i < n
        invariant
            n == ls@.len() == lv.len(),
            i <= n + 1,
            lv == Seq::new(ls@.len(), |j: int| ls@[j]@),
            out@.len() == done.len(),
            forall|k: int| 0 <= k < out@.len() ==> #[trigger] cue_view(out@[k]) == done[k],
            cues_from(lv, 0) == done + cues_from(lv, i as int),
        decreases n + 1 - i,
    {
        let tl = trim_chars(&ls[i]);
        assert(ls@[i as int]@ == lv[i as int]);
        if contains_exec(&tl, "-->") {
            match split_arrow_exec(&ls[i]) {
                None => {
                    i = i + 1;
                },
                Some((a, b)) => {
                    let mut pieces: Vec<Vec<char>> = Vec::new();
                    let mut j = i + 1;
                    proof {
                        lemma_text_block_end(lv, i + 1);
                    }
                    while j < n && !is_blank(&ls[j]) && !contains_exec(&ls[j], "-->")
                        invariant
                            n == ls@.len() == lv.len(),
                            lv == Seq::new(ls@.len(), |j: int| ls@[j]@),
                            i < j <= n,
                            text_block_end(lv, i + 1) == text_block_end(lv, j as int),
                            pieces@.len() == cue_texts(lv, i + 1, j as int).len(),
                            forall|k: int|
                                0 <= k < pieces@.len() ==> #[trigger] pieces@[k]@ == cue_texts(
                                    lv,
                                    i + 1,
                                    j as int,
                                )[k],
                        decreases n - j,
                    {
                        assert(ls@[j as int]@ == lv[j as int]);
                        match cue_text_piece_exec(&ls[j]) {
                            Some(p) => {
                                pieces.push(p);
                            },
                            None => {},
                        }
                        j = j + 1;
                    }
                    proof {
                        if j < n {
                            assert(ls@[j as int]@ == lv[j as int]);
                        }
                    }
                    assert(text_block_end(lv, i + 1) == j);
                    assert(Seq::new(pieces@.len(), |k: int| pieces@[k]@) == cue_texts(
                        lv,
                        i + 1,
                        j as int,
                    ));
                    let text = join_chars(&pieces, " ");
                    let sa = trim_chars(&a);
                    let sb = trim_chars(&b);
                    let cue = VttCue { start: string_of(&sa), end: string_of(&sb), text: string_of(&text) };
                    assert(split_arrow(lv[i as int]) == Some((a@, b@)));
                    assert(cues_from(lv, i as int) == seq![cue_view(cue)] + cues_from(lv, j + 1));
                    proof {
                        done = done.push(cue_view(cue));
                    }
                    out.push(cue);
                    i = if j < n {
                        j + 1
                    } else {
                        n
                    };
                },
            }
        } else {
            i = i + 1;
        }
    }
    assert(cues_from(lv, i as int) == Seq::<(Seq<char>, Seq<char>, Seq<char>)>::empty());
    assert(done == vtt_cues(content@));
    out
}

/// Text with no tag brackets and no whitespace at either end.
pub open spec fn clean_text(t: Seq<char>) -> bool {
    &&& bracket_free(t)
    &&& t.len() > 0 ==> !is_ws(t[0]) && !is_ws(t.last())
}

/// The number of lines from `i` on that carry `-->` (once trimmed).
pub open spec fn arrow_lines(ls: Seq<Seq<char>>, i: int) -> int
    decreases ls.len() - i,
{
    if i < 0 || i >= ls.len() {
        0
    } else {
        (if contains(trim(ls[i]), "-->"@) { 1int } else { 0int }) + arrow_lines(ls, i + 1)
    }
}

proof fn lemma_arrow_lines_monotone(ls: Seq<Seq<char>>, a: int, b: int)
    requires
        0 <= a <= b,
    ensures
        arrow_lines(ls, b) <= arrow_lines(ls, a),
        arrow_lines(ls, a) >= 0,
    decreases b - a,
{
    if a < b {
        lemma_arrow_lines_monotone(ls, a + 1, b);
    } else {
        lemma_arrow_lines_nonneg(ls, a);
    }
}

proof fn lemma_arrow_lines_nonneg(ls: Seq<Seq<char>>, i: int)
    ensures
        arrow_lines(ls, i) >= 0,
    decreases ls.len() - i,
{
    if 0 <= i < ls.len() {
        lemma_arrow_lines_nonneg(ls, i + 1);
    }
}

proof fn lemma_piece_clean(line: Seq<char>)
    ensures
        cue_text_piece(line) matches Some(c) ==> clean_text(c) && c.len() > 0,
{
    let t = remove_all(remove_all(trim(line), "<c>"@), "</c>"@);
    lemma_stripped_text_clean(t);
}

proof fn lemma_cue_texts_clean(ls: Seq<Seq<char>>, a: int, b: int)
    requires
        0 <= a,
        b <= ls.len(),
    ensures
        forall|k: int| 0 <= k < cue_texts(ls, a, b).len() ==> clean_text(#[trigger] cue_texts(ls, a, b)[k])
            && cue_texts(ls, a, b)[k].len() > 0,
    decreases b - a,
{
    if b > a {
        lemma_cue_texts_clean(ls, a, b - 1);
        lemma_piece_clean(ls[b - 1]);
        let prev = cue_texts(ls, a, b - 1);
        match cue_text_piece(ls[b - 1]) {
            Some(c) => {
                assert forall|k: int| 0 <= k < prev.push(c).len() implies clean_text(#[trigger] prev.push(c)[k])
                    && prev.push(c)[k].len() > 0 by {
                    if k < prev.len() {
                        assert(prev.push(c)[k] == prev[k]);
                    }
                }
            },
            None => {},
        }
    }
}

proof fn lemma_join_clean(parts: Seq<Seq<char>>)
    requires
        forall|k: int| 0 <= k < parts.len() ==> clean_text(#[trigger] parts[k]) && parts[k].len() > 0,
    ensures
        clean_text(join(parts, " "@)),
        parts.len() > 0 ==> join(parts, " "@).len() > 0 && join(parts, " "@)[0] == parts[0][0],
    decreases parts.len(),
{
    reveal_strlit(" ");
    if parts.len() > 1 {
        let init = parts.drop_last();
        assert forall|k: int| 0 <= k < init.len() implies clean_text(#[trigger] init[k]) && init[k].len() > 0 by {
            assert(init[k] == parts[k]);
        }
        lemma_join_clean(init);
        let j = join(init, " "@);
        let l = parts.last();
        assert(clean_text(parts[parts.len() - 1]));
        let r = j + " "@ + l;
        assert(r == join(parts, " "@));
        assert forall|k: int| 0 <= k < r.len() implies #[trigger] r[k] != '<' && r[k] != '>' by {
            if k < j.len() {
                assert(r[k] == j[k]);
            } else if k == j.len() {
                assert(r[k] == ' ');
            } else {
                assert(r[k] == l[k - j.len() - 1]);
            }
        }
        assert(r[0] == j[0]);
        assert(r.last() == l.last());
        assert(init[0] == parts[0]);
    } else if parts.len() == 1 {
        assert(clean_text(parts[0]));
    }
}

proof fn lemma_cues_from_clean(ls: Seq<Seq<char>>, i: int)
    requires
        0 <= i,
    ensures
        cues_from(ls, i).len() <= arrow_lines(ls, i),
        forall|k: int| 0 <= k < cues_from(ls, i).len() ==> clean_text(#[trigger] cues_from(ls, i)[k].2),
    decreases ls.len() + 1 - i,
{
    if i < ls.len() {
        if !contains(trim(ls[i]), "-->"@) {
            lemma_cues_from_clean(ls, i + 1);
        } else {
            match split_arrow(ls[i]) {
                None => {
                    lemma_cues_from_clean(ls, i + 1);
                },
                Some(parts) => {
                    let j = text_block_end(ls, i + 1);
                    lemma_text_block_end(ls, i + 1);
                    lemma_cues_from_clean(ls, j + 1);
                    lemma_arrow_lines_monotone(ls, i + 1, j + 1);
                    lemma_cue_texts_clean(ls, i + 1, j);
                    lemma_join_clean(cue_texts(ls, i + 1, j));
                    let head = seq![(trim(parts.0), trim(parts.1), join(cue_texts(ls, i + 1, j), " "@))];
                    let rest = cues_from(ls, j + 1);
                    assert(cues_from(ls, i) == head + rest);
                    assert forall|k: int| 0 <= k < cues_from(ls, i).len() implies clean_text(
                        #[trigger] cues_from(ls, i)[k].2,
                    ) by {
                        if k > 0 {
                            assert(cues_from(ls, i)[k] == rest[k - 1]);
                        }
                    }
                },
            }
        }
    } else {
        lemma_arrow_lines_nonneg(ls, i);
    }
}

/// The cues of a WebVTT document are no more than its lines that carry
/// `-->`, and each cue's text holds no tag brackets and no whitespace at
/// either end.
pub proof fn lemma_vtt_cues_clean(content: Seq<char>)
    ensures
        vtt_cues(content).len() <= arrow_lines(lines(content), 0),
        forall|k: int| 0 <= k < vtt_cues(content).len() ==> clean_text(#[trigger] vtt_cues(content)[k].2),
{
    lemma_cues_from_clean(lines(content), 0);
}

// ── Segment assembly ────────────────────────────────────────────────────

/// A cue whose timestamps have been read (in milliseconds); `None` for a
/// timestamp that could not be read.
pub struct TimedCue {
    pub start: Option<u64>,
    pub end: Option<u64>,
    pub text: String,
}

/// The segments of the cues whose two timestamps were read and whose text
/// is not empty.
pub open spec fn kept_segments(cues: Seq<TimedCue>) -> Seq<(u64, u64, Seq<char>)>
    decreases cues.len(),
{
    if cues.len() == 0 {
        seq![]
    } else {
        let rest = kept_segments(cues.drop_last());
        let c = cues.last();
        match (c.start, c.end) {
            (Some(s), Some(e)) => if c.text@.len() > 0 {
                rest.push((s, e, c.text@))
            } else {
                rest
            },
            _ => rest,
        }
    }
}

/// Consecutive segments with the same text merged into the first of them,
/// whose end becomes the latest end of the run.
pub open spec fn dedup(segs: Seq<(u64, u64, Seq<char>)>) -> Seq<(u64, u64, Seq<char>)>
    decreases segs.len(),
{
    if segs.len() == 0 {
        seq![]
    } else {
        let r = dedup(segs.drop_last());
        let s = segs.last();
        if r.len() > 0 && r.last().2 == s.2 {
            let l = r.last();
            r.update(r.len() - 1, (l.0, if s.1 > l.1 { s.1 } else { l.1 }, l.2))
        } else {
            r.push(s)
        }
    }
}

/// Each segment extended to the start of the next one when a gap lies between them.
pub open spec fn fill_gaps(segs: Seq<(u64, u64, Seq<char>)>) -> Seq<(u64, u64, Seq<char>)> {
    Seq::new(
        segs.len(),
        |i: int|
            if i + 1 < segs.len() && segs[i + 1].0 > segs[i].1 {
                (segs[i].0, segs[i + 1].0, segs[i].2)
            } else {
                segs[i]
            },
    )
}

fn dedup_views(segs: &Vec<TranscriptSegment>) -> (r: Vec<TranscriptSegment>)
    ensures
        segs_view(r@) == dedup(segs_view(segs@)),
{
    let mut result: Vec<TranscriptSegment> = Vec::new();
    let mut i: usize = 0;
    while i < segs.len()
        invariant
            i <= segs@.len(),
            segs_view(result@) == dedup(segs_view(segs@.take(i as int))),
        decreases segs@.len() - i,
    {
        let seg = &segs[i];
        assert(segs_view(segs@.take(i + 1)).drop_last() == segs_view(segs@.take(i as int)));
        let n = result.len();
        if n > 0 && result[n - 1].text == seg.text {
            let last = result.pop().unwrap();
            let end = if seg.end > last.end {
                seg.end
            } else {
                last.end
            };
            result.push(TranscriptSegment { start: last.start, end, text: last.text });
        } else {
            result.push(TranscriptSegment { start: seg.start, end: seg.end, text: seg.text.clone() });
        }
        i = i + 1;
        assert(segs_view(result@) == dedup(segs_view(segs@.take(i as int))));
    }
    assert(segs@.take(segs@.len() as int) == segs@);
    result
}

/// Merge consecutive segments with the same text, extending the kept
/// segment's end to cover the duplicates' range.
pub fn dedup_segments(segments: Vec<TranscriptSegment>) -> (r: Vec<TranscriptSegment>)
    ensures
        segs_view(r@) == dedup(segs_view(segments@)),
{
    dedup_views(&segments)
}

/// The transcript segments of the timed cues of a WebVTT document: cues
/// without both timestamps or without text are dropped, repeated texts are
/// merged, and each segment lasts until the next one starts.
pub fn assemble_segments(cues: Vec<TimedCue>) -> (r: Vec<TranscriptSegment>)
    ensures
        segs_view(r@) == fill_gaps(dedup(kept_segments(cues@))),
{
    let mut kept: Vec<TranscriptSegment> = Vec::new();
    let mut i: usize = 0;
    while i < cues.len()
        invariant
            i <= cues@.len(),
            segs_view(kept@) == kept_segments(cues@.take(i as int)),
        decreases cues@.len() - i,
    {
        let c = &cues[i];
        assert(cues@.take(i + 1).drop_last() == cues@.take(i as int));
        match (c.start, c.end) {
            (Some(s), Some(e)) => {
                if !c.text.as_str().is_empty() {
                    kept.push(TranscriptSegment { start: s, end: e, text: c.text.clone() });
                }
            },
            _ => {},
        }
        i = i + 1;
        assert(segs_view(kept@) == kept_segments(cues@.take(i as int)));
    }
    assert(cues@.take(cues@.len() as int) == cues@);
    let mut result = dedup_views(&kept);
    let ghost d = segs_view(result@);
    let n = result.len();
    let mut k: usize = 0;
    while n > 0 && k < n - 1
        invariant
            n == result@.len() == d.len(),
            k <= n,
            forall|j: int| 0 <= j < k ==> #[trigger] seg_view(result@[j]) == fill_gaps(d)[j],
            forall|j: int| k <= j < n ==> #[trigger] seg_view(result@[j]) == d[j],
        decreases n - k,
    {
        let next_start = result[k + 1].start;
        assert(seg_view(result@[k + 1]) == d[k + 1]);
        assert(seg_view(result@[k as int]) == d[k as int]);
        if next_start > result[k].end {
            let seg = TranscriptSegment {
                start: result[k].start,
                end: next_start,
                text: result[k].text.clone(),
            };
            result.set(k, seg);
        }
        assert(seg_view(result@[k as int]) == fill_gaps(d)[k as int]);
        k = k + 1;
    }
    assert forall|j: int| 0 <= j < n implies #[trigger] seg_view(result@[j]) == fill_gaps(d)[j] by {
        if j >= k {
            assert(seg_view(result@[j]) == d[j]);
        }
    }
    assert(segs_view(result@) == fill_gaps(d));
    result
}

/// After deduplication no two neighbouring segments carry the same text.
pub proof fn lemma_dedup_no_adjacent_repeats(segs: Seq<(u64, u64, Seq<char>)>)
    ensures
        forall|i: int| 0 <= i < dedup(segs).len() - 1 ==> #[trigger] dedup(segs)[i].2 != dedup(segs)[i + 1].2,
        dedup(segs).len() <= segs.len(),
    decreases segs.len(),
{
    if segs.len() > 0 {
        lemma_dedup_no_adjacent_repeats(segs.drop_last());
        let r = dedup(segs.drop_last());
        let s = segs.last();
        if r.len() > 0 && r.last().2 == s.2 {
            let l = r.last();
            let u = r.update(r.len() - 1, (l.0, if s.1 > l.1 { s.1 } else { l.1 }, l.2));
            assert forall|i: int| 0 <= i < u.len() - 1 implies #[trigger] u[i].2 != u[i + 1].2 by {
                assert(r[i].2 != r[i + 1].2);
            }
        } else {
            let u = r.push(s);
            assert forall|i: int| 0 <= i < u.len() - 1 implies #[trigger] u[i].2 != u[i + 1].2 by {
                if i < r.len() - 1 {
                    assert(r[i].2 != r[i + 1].2);
                }
            }
        }
    }
}

/// After gap filling every segment lasts at least until the next one starts,
/// and keeps its own start and text.
pub proof fn lemma_fill_gaps_contiguous(segs: Seq<(u64, u64, Seq<char>)>)
    ensures
        fill_gaps(segs).len() == segs.len(),
        forall|i: int| 0 <= i < segs.len() - 1 ==> #[trigger] fill_gaps(segs)[i].1 >= segs[i + 1].0,
        forall|i: int|
            0 <= i < segs.len() ==> #[trigger] fill_gaps(segs)[i].0 == segs[i].0 && fill_gaps(segs)[i].2
                == segs[i].2 && fill_gaps(segs)[i].1 >= segs[i].1,
{
}

/// `t` is the (non-empty) text of one of the cues.
pub open spec fn is_cue_text(cues: Seq<TimedCue>, t: Seq<char>) -> bool {
    t.len() > 0 && exists|j: int| 0 <= j < cues.len() && #[trigger] cues[j].text@ == t
}

proof fn lemma_kept_from_cues(cues: Seq<TimedCue>)
    ensures
        kept_segments(cues).len() <= cues.len(),
        forall|i: int| 0 <= i < kept_segments(cues).len() ==> is_cue_text(cues, #[trigger] kept_segments(cues)[i].2),
    decreases cues.len(),
{
    if cues.len() > 0 {
        let init = cues.drop_last();
        lemma_kept_from_cues(init);
        let rest = kept_segments(init);
        assert forall|i: int| 0 <= i < rest.len() implies is_cue_text(cues, #[trigger] rest[i].2) by {
            let j = choose|j: int| 0 <= j < init.len() && #[trigger] init[j].text@ == rest[i].2;
            assert(cues[j] == init[j]);
        }
        let c = cues.last();
        assert(cues[cues.len() - 1] == c);
        match (c.start, c.end) {
            (Some(st), Some(e)) => {
                if c.text@.len() > 0 {
                    let k = rest.push((st, e, c.text@));
                    assert forall|i: int| 0 <= i < k.len() implies is_cue_text(cues, #[trigger] k[i].2) by {
                        if i < rest.len() {
                            assert(k[i] == rest[i]);
                        }
                    }
                }
            },
            _ => {},
        }
    }
}

proof fn lemma_dedup_texts(segs: Seq<(u64, u64, Seq<char>)>, cues: Seq<TimedCue>)
    requires
        forall|i: int| 0 <= i < segs.len() ==> is_cue_text(cues, #[trigger] segs[i].2),
    ensures
        forall|i: int| 0 <= i < dedup(segs).len() ==> is_cue_text(cues, #[trigger] dedup(segs)[i].2),
    decreases segs.len(),
{
    if segs.len() > 0 {
        let init = segs.drop_last();
        assert forall|i: int| 0 <= i < init.len() implies is_cue_text(cues, #[trigger] init[i].2) by {
            assert(init[i] == segs[i]);
        }
        lemma_dedup_texts(init, cues);
        let r = dedup(init);
        let s = segs.last();
        assert(is_cue_text(cues, segs[segs.len() - 1].2));
        if r.len() > 0 && r.last().2 == s.2 {
            let l = r.last();
            let u = r.update(r.len() - 1, (l.0, if s.1 > l.1 { s.1 } else { l.1 }, l.2));
            assert forall|i: int| 0 <= i < u.len() implies is_cue_text(cues, #[trigger] u[i].2) by {
                assert(u[i].2 == r[i].2);
            }
        } else {
            let u = r.push(s);
            assert forall|i: int| 0 <= i < u.len() implies is_cue_text(cues, #[trigger] u[i].2) by {
                if i < r.len() {
                    assert(u[i] == r[i]);
                }
            }
        }
    }
}

/// The segments assembled from timed cues are no more than the cues; each
/// carries the non-empty text of one of the cues; neighbours never share a
/// text; and each lasts at least until the next one starts.
pub proof fn lemma_assembled_segments(cues: Seq<TimedCue>)
    ensures
        fill_gaps(dedup(kept_segments(cues))).len() <= cues.len(),
        forall|i: int|
            0 <= i < fill_gaps(dedup(kept_segments(cues))).len() ==> is_cue_text(
                cues,
                #[trigger] fill_gaps(dedup(kept_segments(cues)))[i].2,
            ),
        forall|i: int|
            0 <= i < fill_gaps(dedup(kept_segments(cues))).len() - 1 ==> #[trigger] fill_gaps(
                dedup(kept_segments(cues)),
            )[i].2 != fill_gaps(dedup(kept_segments(cues)))[i + 1].2 && fill_gaps(dedup(kept_segments(cues)))[i].1
                >= fill_gaps(dedup(kept_segments(cues)))[i + 1].0,
{
    let k = kept_segments(cues);
    let d = dedup(k);
    let f = fill_gaps(d);
    lemma_kept_from_cues(cues);
    lemma_dedup_no_adjacent_repeats(k);
    lemma_dedup_texts(k, cues);
    lemma_fill_gaps_contiguous(d);
    assert forall|i: int| 0 <= i < f.len() implies is_cue_text(cues, #[trigger] f[i].2) by {
        assert(f[i].2 == d[i].2);
    }
    assert forall|i: int| 0 <= i < f.len() - 1 implies #[trigger] f[i].2 != f[i + 1].2 && f[i].1 >= f[i + 1].0 by {
        assert(f[i].2 == d[i].2);
        assert(f[i + 1].2 == d[i + 1].2);
        assert(f[i + 1].0 == d[i + 1].0);
        assert(d[i].2 != d[i + 1].2);
    }
}

/// The transcript segments of a WebVTT document: when `cues` are its cues
/// (as `parse_vtt_cues` gives them) with their timestamps read in any way,
/// the assembled segments are no more than the document's lines that carry
/// `-->`; each one's text is non-empty, holds no tag brackets and has no
/// whitespace at either end; neighbours never share a text; and each lasts
/// at least until the next one starts.
pub proof fn lemma_vtt_segments(content: Seq<char>, cues: Seq<TimedCue>)
    requires
        cues.len() == vtt_cues(content).len(),
        forall|k: int| 0 <= k < cues.len() ==> #[trigger] cues[k].text@ == vtt_cues(content)[k].2,
    ensures
        fill_gaps(dedup(kept_segments(cues))).len() <= arrow_lines(lines(content), 0),
        forall|i: int|
            0 <= i < fill_gaps(dedup(kept_segments(cues))).len() ==> {
                let t = #[trigger] fill_gaps(dedup(kept_segments(cues)))[i].2;
                t.len() > 0 && clean_text(t)
            },
        forall|i: int|
            0 <= i < fill_gaps(dedup(kept_segments(cues))).len() - 1 ==> #[trigger] fill_gaps(
                dedup(kept_segments(cues)),
            )[i].2 != fill_gaps(dedup(kept_segments(cues)))[i + 1].2 && fill_gaps(dedup(kept_segments(cues)))[i].1
                >= fill_gaps(dedup(kept_segments(cues)))[i + 1].0,
{
    let f = fill_gaps(dedup(kept_segments(cues)));
    lemma_assembled_segments(cues);
    lemma_vtt_cues_clean(content);
    assert forall|i: int| 0 <= i < f.len() implies #[trigger] f[i].2.len() > 0 && clean_text(f[i].2) by {
        assert(is_cue_text(cues, f[i].2));
        let j = choose|j: int| 0 <= j < cues.len() && #[trigger] cues[j].text@ == f[i].2;
        assert(cues[j].text@ == vtt_cues(content)[j].2);
    }
}

// ── Building transcripts ────────────────────────────────────────────────

/// The end of a description pseudo-transcript: `u32::MAX` seconds, in milliseconds.
pub const DESCRIPTION_END_MS: u64 = 4294967295000;

/// The transcript of a subtitle file's segments in `language`, or `None`
/// when there are none.
pub fn transcript_from_segments(language: String, segments: Vec<TranscriptSegment>) -> (r: Option<
    Transcript,
>)
    ensures
        segments@.len() == 0 <==> r is None,
        r matches Some(t) ==> t.language == language && t.segments == segments,
{
    if segments.len() == 0 {
        None
    } else {
        Some(Transcript { language, segments })
    }
}

/// The pseudo-transcript made from a video description printed by yt-dlp:
/// one segment spanning the whole video, or `None` when the trimmed
/// description is empty or `NA`.
pub fn description_transcript(stdout: &str) -> (r: Option<Transcript>)
    ensures
        (trim(stdout@).len() == 0 || trim(stdout@) == "NA"@) <==> r is None,
        r matches Some(t) ==> t.language@ == "description"@ && t.segments@.len() == 1
            && seg_view(t.segments@[0]) == (0u64, DESCRIPTION_END_MS, trim(stdout@)),
{
    let d = trim_chars(&chars_of(stdout));
    if d.len() == 0 || crate::text::chars_eq(&d, "NA") {
        return None;
    }
    let text = string_of(&d);
    let lang = string_of(&chars_of("description"));
    let mut segments: Vec<TranscriptSegment> = Vec::new();
    segments.push(TranscriptSegment { start: 0, end: DESCRIPTION_END_MS, text });
    Some(Transcript { language: lang, segments })
}

/// The position of the last `.` in `s`, or -1.
pub open spec fn last_dot(s: Seq<char>) -> int
    decreases s.len(),
{
    if s.len() == 0 {
        -1
    } else if s.last() == '.' {
        s.len() - 1
    } else {
        last_dot(s.drop_last())
    }
}

/// The language code of a subtitle file stem such as `sub.en-en`: the text
/// after its last `.`, or the whole stem.
pub open spec fn lang_code(stem: Seq<char>) -> Seq<char> {
    stem.subrange(last_dot(stem) + 1, stem.len() as int)
}

/// The last dot of a name lies inside it, or there is none (-1).
pub proof fn lemma_last_dot(s: Seq<char>)
    ensures
        -1 <= last_dot(s) < s.len(),
    decreases s.len(),
{
    if s.len() > 0 && s.last() != '.' {
        lemma_last_dot(s.drop_last());
    }
}

pub fn subtitle_lang(stem: &str) -> (r: String)
    ensures
        r@ == lang_code(stem@),
{
    let cs = chars_of(stem);
    let mut i = cs.len();
    proof {
        lemma_last_dot(cs@);
    }
    assert(cs@.take(i as int) == cs@);
    while i > 0 && cs[i - 1] != '.'
        invariant
            i <= cs@.len(),
            last_dot(cs@) == last_dot(cs@.take(i as int)),
        decreases i,
    {
        assert(cs@.take(i as int).drop_last() == cs@.take(i - 1));
        i = i - 1;
    }
    assert(last_dot(cs@) == i - 1);
    string_of(&copy_range(&cs, i, cs.len()))
}

/// Among the readable subtitle files, the one with the shortest language
/// code (manual subtitles such as `en` before automatic ones such as
/// `en-en`), the earliest on ties; `None` when none is readable.
pub open spec fn best_subtitle(lang_lens: Seq<nat>, readable: Seq<bool>, i: int) -> bool {
    0 <= i < lang_lens.len() && readable[i] && (forall|j: int|
        0 <= j < lang_lens.len() && readable[j] ==> lang_lens[i] <= #[trigger] lang_lens[j]) && (
    forall|j: int| 0 <= j < i && readable[j] ==> lang_lens[i] < #[trigger] lang_lens[j])
}

pub open spec fn lens_of(langs: Seq<String>) -> Seq<nat> {
    Seq::new(langs.len(), |i: int| langs[i]@.len())
}

pub fn choose_subtitle(langs: &Vec<String>, readable: &Vec<bool>) -> (r: Option<usize>)
    requires
        langs@.len() == readable@.len(),
    ensures
        match r {
            Some(i) => best_subtitle(lens_of(langs@), readable@, i as int),
            None => forall|j: int| 0 <= j < readable@.len() ==> !#[trigger] readable@[j],
        },
{
    let mut best: Option<usize> = None;
    let mut best_len: usize = 0;
    let mut i: usize = 0;
    while i < langs.len()
        invariant
            langs@.len() == readable@.len(),
            i <= langs@.len(),
            match best {
                Some(b) => b < i && best_len == langs@[b as int]@.len() && readable@[b as int]
                    && (forall|j: int|
                    0 <= j < i && readable@[j] ==> best_len <= #[trigger] lens_of(langs@)[j]) && (
                forall|j: int| 0 <= j < b && readable@[j] ==> best_len < #[trigger] lens_of(langs@)[j]),
                None => forall|j: int| 0 <= j < i ==> !#[trigger] readable@[j],
            },
        decreases langs@.len() - i,
    {
        if readable[i] {
            let len = crate::text::chars_of(langs[i].as_str()).len();
            match best {
                None => {
                    best = Some(i);
                    best_len = len;
                },
                Some(_) => {
                    if len < best_len {
                        best = Some(i);
                        best_len = len;
                    }
                },
            }
        }
        i = i + 1;
    }
    best
}

} // verus!
