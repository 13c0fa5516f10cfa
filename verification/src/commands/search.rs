use vstd::prelude::*;

use crate::media::source::{source_of_arg, Source};
use crate::media::types::{duration_text, push_duration, MediaInfo};
use crate::text::{append_str, decimal, join, lowercase, push_decimal, string_of};
use crate::tui::keys::KeyInput;

verus! {

/// How the result selector ended.
#[derive(Debug, Clone, Copy, PartialEq, Eq, Structural)]
pub enum SelectAction {
    /// The row with this index on the page was chosen.
    Selected(usize),
    Cancelled,
    NextPage,
    PrevPage,
}

/// The page shown by the selector: 0-based `current` of `total` pages.
#[derive(Debug, Clone, Copy, PartialEq, Eq, Structural)]
pub struct PageInfo {
    pub current: usize,
    pub total: usize,
}

/// The full-screen result selector of `search`: the highlighted row among
/// `count` rows, and whether the page has neighbours.
#[derive(Debug, Clone, Copy, PartialEq, Eq, Structural)]
pub struct Selector {
    pub selected: usize,
    pub count: usize,
    pub has_prev: bool,
    pub has_next: bool,
}

impl Selector {
    /// The highlighted row is one of the rows.
    pub open spec fn wf(self) -> bool {
        self.selected < self.count
    }

    /// A selector over `count` rows, at the top; `None` when there is
    /// nothing to choose from (the selector is then cancelled at once).
    pub fn start(count: usize, page: PageInfo) -> (r: Option<Selector>)
        ensures
            count == 0 ==> r is None,
            count > 0 ==> (r matches Some(s) && s.wf() && s.selected == 0 && s.count == count && s.has_prev == (
            page.current > 0) && s.has_next == (page.current + 1 < page.total)),
    {
        if count == 0 {
            None
        } else {
            Some(
                Selector {
                    selected: 0,
                    count,
                    has_prev: page.current > 0,
                    has_next: page.current < usize::MAX && page.current + 1 < page.total,
                },
            )
        }
    }

    /// A key press: move the highlight, or end the selector.
    pub fn handle_key(&mut self, key: KeyInput) -> (r: Option<SelectAction>)
        requires
            old(self).wf(),
        ensures
            final(self).wf(),
            final(self).count == old(self).count,
            final(self).has_prev == old(self).has_prev,
            final(self).has_next == old(self).has_next,
            final(self).selected == (match key {
                KeyInput::Up => if old(self).selected > 0 {
                    (old(self).selected - 1) as usize
                } else {
                    old(self).selected
                },
                KeyInput::Down => if old(self).selected + 1 < old(self).count {
                    (old(self).selected + 1) as usize
                } else {
                    old(self).selected
                },
                _ => old(self).selected,
            }),
            r == (match key {
                KeyInput::Enter => Some(SelectAction::Selected(old(self).selected)),
                KeyInput::Right => if old(self).has_next {
                    Some(SelectAction::NextPage)
                } else {
                    None
                },
                KeyInput::Left => if old(self).has_prev {
                    Some(SelectAction::PrevPage)
                } else {
                    None
                },
                KeyInput::Esc | KeyInput::Char('q') | KeyInput::CtrlC => Some(SelectAction::Cancelled),
                _ => None,
            }),
    {
        match key {
            KeyInput::Up => {
                if self.selected > 0 {
                    self.selected = self.selected - 1;
                }
                None
            },
            KeyInput::Down => {
                if self.selected < self.count - 1 {
                    self.selected = self.selected + 1;
                }
                None
            },
            KeyInput::Enter => Some(SelectAction::Selected(self.selected)),
            KeyInput::Right => if self.has_next {
                Some(SelectAction::NextPage)
            } else {
                None
            },
            KeyInput::Left => if self.has_prev {
                Some(SelectAction::PrevPage)
            } else {
                None
            },
            KeyInput::Esc | KeyInput::Char('q') | KeyInput::CtrlC => Some(SelectAction::Cancelled),
            _ => None,
        }
    }

    /// How many rows fit on a screen of `rows` lines (three header and
    /// three footer lines; at least one row, at most all of them).
    pub open spec fn visible_rows(self, rows: usize) -> int {
        let fit = if rows >= 7 { rows - 6 } else { 1 };
        if fit < self.count { fit } else { self.count as int }
    }

    /// The first row shown: the window scrolls just enough to keep the
    /// highlighted row on screen.
    pub open spec fn first_row(self, rows: usize) -> int {
        let visible = self.visible_rows(rows);
        if self.selected >= visible { self.selected - visible + 1 } else { 0 }
    }

    /// The first row shown and how many rows are shown.
    pub fn window(&self, rows: usize) -> (r: (usize, usize))
        requires
            self.wf(),
        ensures
            r.0 == self.first_row(rows),
            r.1 == self.visible_rows(rows),
            r.0 <= self.selected < r.0 + r.1,
            r.0 + r.1 <= self.count,
    {
        let fit = if rows >= 7 { rows - 6 } else { 1 };
        let visible = if fit < self.count { fit } else { self.count };
        let start = if self.selected >= visible { self.selected - visible + 1 } else { 0 };
        (start, visible)
    }

    /// The navigation hints of the footer.
    pub open spec fn hints(self) -> Seq<Seq<char>> {
        seq!["[↑↓] navigate"@, "[Enter] select"@] + (if self.has_prev { seq!["[←] prev page"@] } else {
            Seq::empty()
        }) + (if self.has_next { seq!["[→] next page"@] } else { Seq::empty() }) + seq!["[Esc/q] cancel"@]
    }

    /// The footer: the hints three spaces apart, then `(n/count)` when not
    /// every row fits.
    pub open spec fn footer_text(self, visible: int) -> Seq<char> {
        "  "@ + join(self.hints(), "   "@) + (if self.count > visible {
            "  ("@ + decimal((self.selected + 1) as nat) + "/"@ + decimal(self.count as nat) + ")"@
        } else {
            ""@
        })
    }

    pub fn footer(&self, visible: usize) -> (r: String)
        requires
            self.wf(),
        ensures
            r@ == self.footer_text(visible as int),
    {
        proof {
            reveal_strlit("");
        }
        let mut parts: Vec<Vec<char>> = Vec::new();
        parts.push(crate::text::chars_of("[↑↓] navigate"));
        parts.push(crate::text::chars_of("[Enter] select"));
        if self.has_prev {
            parts.push(crate::text::chars_of("[←] prev page"));
        }
        if self.has_next {
            parts.push(crate::text::chars_of("[→] next page"));
        }
        parts.push(crate::text::chars_of("[Esc/q] cancel"));
        assert(Seq::new(parts@.len(), |i: int| parts@[i]@) =~= self.hints());
        let mut out: Vec<char> = Vec::new();
        append_str(&mut out, "  ");
        let joined = crate::text::join_chars(&parts, "   ");
        crate::text::append_range(&mut out, &joined, 0, joined.len());
        assert(joined@.subrange(0, joined@.len() as int) =~= joined@);
        if self.count > visible {
            append_str(&mut out, "  (");
            push_decimal(&mut out, (self.selected + 1) as u64);
            append_str(&mut out, "/");
            push_decimal(&mut out, self.count as u64);
            append_str(&mut out, ")");
        }
        assert(out@ =~= self.footer_text(visible as int));
        string_of(&out)
    }
}

/// The number of pages of `size` among `total` results (rounded up).
pub open spec fn page_count(total: int, size: int) -> int {
    (total + size - 1) / size
}

pub fn count_pages(total: usize, size: usize) -> (r: usize)
    requires
        size > 0,
        total + size <= usize::MAX,
    ensures
        r == page_count(total as int, size as int),
{
    (total + size - 1) / size
}

/// The rows of page `page`: from `page * size`, at most `size` of them.
pub fn page_range(page: usize, size: usize, total: usize) -> (r: (usize, usize))
    requires
        size > 0,
        page * size <= total,
        total + size <= usize::MAX,
    ensures
        r.0 == page * size,
        r.1 == if page * size + size < total { page * size + size } else { total as int },
        r.0 <= r.1 <= total,
{
    let start = page * size;
    let end = if start + size < total { start + size } else { total };
    (start, end)
}

/// The page after a page-turn request; other outcomes keep the page.
pub fn turn_page(action: SelectAction, page: PageInfo) -> (r: usize)
    ensures
        r == (match action {
            SelectAction::NextPage => if page.current + 1 < page.total {
                page.current + 1
            } else {
                page.current as int
            },
            SelectAction::PrevPage => if page.current > 0 {
                page.current - 1
            } else {
                page.current as int
            },
            _ => page.current as int,
        }),
{
    match action {
        SelectAction::NextPage => if page.current < usize::MAX && page.current + 1 < page.total {
            page.current + 1
        } else {
            page.current
        },
        SelectAction::PrevPage => if page.current > 0 {
            page.current - 1
        } else {
            page.current
        },
        _ => page.current,
    }
}

/// Results per page: the `--limit` when given (non-zero), else the
/// configured count.
pub fn search_page_size(limit: usize, configured: usize) -> (r: usize)
    ensures
        r == if limit > 0 { limit } else { configured },
{
    if limit > 0 {
        limit
    } else {
        configured
    }
}

/// The source a search uses: the one named on the command line, else the
/// configured default, else YouTube.
pub fn search_source(arg: &str, configured: &str) -> (r: Source)
    ensures
        r == match source_of_arg(lowercase(arg@)) {
            Some(s) => s,
            None => match source_of_arg(lowercase(configured@)) {
                Some(s) => s,
                None => Source::YouTube,
            },
        },
{
    match Source::from_str_arg(arg) {
        Some(s) => s,
        None => match Source::from_str_arg(configured) {
            Some(s) => s,
            None => Source::YouTube,
        },
    }
}

/// A row of the selector: `"{n}. {❤️ }{📋}{title} · {channel} · {duration}"`,
/// with `Unknown` for a missing channel and `LIVE` for a missing duration.
pub open spec fn result_row_text(number: nat, is_fav: bool, in_queue: bool, v: MediaInfo) -> Seq<char> {
    decimal(number) + ". "@ + (if is_fav { "❤️ "@ } else { ""@ }) + (if in_queue { "📋"@ } else { ""@ })
        + v.title@ + " · "@ + (match v.channel {
        Some(c) => c@,
        None => "Unknown"@,
    }) + " · "@ + (match v.duration {
        Some(d) => duration_text(d as nat),
        None => "LIVE"@,
    })
}

pub fn result_row(number: u64, is_fav: bool, in_queue: bool, v: &MediaInfo) -> (r: String)
    ensures
        r@ == result_row_text(number as nat, is_fav, in_queue, *v),
{
    proof {
        reveal_strlit("");
    }
    let mut out: Vec<char> = Vec::new();
    push_decimal(&mut out, number);
    append_str(&mut out, ". ");
    let ghost s1 = out@;
    if is_fav {
        append_str(&mut out, "❤️ ");
    }
    assert(out@ =~= s1 + (if is_fav { "❤️ "@ } else { ""@ }));
    let ghost s2 = out@;
    if in_queue {
        append_str(&mut out, "📋");
    }
    assert(out@ =~= s2 + (if in_queue { "📋"@ } else { ""@ }));
    append_str(&mut out, v.title.as_str());
    append_str(&mut out, " · ");
    match &v.channel {
        Some(c) => append_str(&mut out, c.as_str()),
        None => append_str(&mut out, "Unknown"),
    }
    append_str(&mut out, " · ");
    match v.duration {
        Some(d) => push_duration(&mut out, d),
        None => append_str(&mut out, "LIVE"),
    }
    string_of(&out)
}

} // verus!
