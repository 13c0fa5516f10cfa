use vstd::prelude::*;

use crate::ai::chat::ChatMessage;
use crate::ai::transcript::Transcript;
use crate::library::favorites::FavoriteEntry;
use crate::library::history::HistoryEntry;
use crate::library::playlist::{Playlist, PlaylistItem};
use crate::library::queue::QueueEntry;
use crate::media::source::{searchable_sources, Source};
use crate::media::types::MediaInfo;
use crate::player::types::RepeatMode;
use crate::text::{append_str, chars_of, push_decimal, string_of};
use std::collections::HashMap;

verus! {

/// The body panel shown in the TUI.
#[derive(Debug, Clone, Copy, PartialEq, Eq, Structural)]
pub enum Panel {
    Search,
    Results,
    Lyrics,
    Queue,
    Favorites,
    History,
    Playlists,
    Chat,
    Help,
}

impl Panel {
    /// The panel that Tab switches to.
    pub open spec fn tab_target(self) -> Panel {
        match self {
            Panel::Search => Panel::Results,
            Panel::Results => Panel::Lyrics,
            Panel::Lyrics => Panel::Queue,
            Panel::Queue => Panel::Favorites,
            Panel::Favorites => Panel::History,
            Panel::History => Panel::Playlists,
            Panel::Playlists => Panel::Chat,
            Panel::Chat => Panel::Help,
            Panel::Help => Panel::Search,
        }
    }

    pub fn next_tab(self) -> (r: Panel)
        ensures
            r == self.tab_target(),
    {
        match self {
            Panel::Search => Panel::Results,
            Panel::Results => Panel::Lyrics,
            Panel::Lyrics => Panel::Queue,
            Panel::Queue => Panel::Favorites,
            Panel::Favorites => Panel::History,
            Panel::History => Panel::Playlists,
            Panel::Playlists => Panel::Chat,
            Panel::Chat => Panel::Help,
            Panel::Help => Panel::Search,
        }
    }
}

/// Search-history navigation as plain values: the recalled position, the
/// input line and the stashed typed input.
pub type NavState = (Option<int>, Seq<char>, Seq<char>);

/// The searches of `h` as text.
pub open spec fn history_texts(h: Seq<String>) -> Seq<Seq<char>> {
    Seq::new(h.len(), |i: int| h[i]@)
}

/// Up: recall the next older search (the newest first, staying at the
/// oldest), stashing the typed input when navigation starts.
pub open spec fn nav_up(h: Seq<Seq<char>>, st: NavState) -> NavState {
    if h.len() == 0 {
        st
    } else {
        let next = match st.0 {
            None => 0,
            Some(i) => if i + 1 < h.len() { i + 1 } else { i },
        };
        (Some(next), h[next], if st.0 is None { st.1 } else { st.2 })
    }
}

/// Down: recall the next newer search, or end navigation with the stashed
/// input restored.
pub open spec fn nav_down(h: Seq<Seq<char>>, st: NavState) -> NavState {
    match st.0 {
        None => st,
        Some(i) => if i == 0 { (None, st.2, st.2) } else { (Some(i - 1), h[i - 1], st.2) },
    }
}

pub open spec fn nav_ups(h: Seq<Seq<char>>, st: NavState, k: nat) -> NavState
    decreases k,
{
    if k == 0 { st } else { nav_up(h, nav_ups(h, st, (k - 1) as nat)) }
}

pub open spec fn nav_downs(h: Seq<Seq<char>>, st: NavState, d: nat) -> NavState
    decreases d,
{
    if d == 0 { st } else { nav_down(h, nav_downs(h, st, (d - 1) as nat)) }
}

proof fn lemma_nav_ups(h: Seq<Seq<char>>, input: Seq<char>, stash: Seq<char>, k: nat)
    requires
        h.len() > 0,
        k >= 1,
    ensures
        ({
            let j = if k < h.len() { k as int } else { h.len() as int };
            nav_ups(h, (None, input, stash), k) == (Some(j - 1), h[j - 1], input)
        }),
    decreases k,
{
    let st: NavState = (None, input, stash);
    if k > 1 {
        lemma_nav_ups(h, input, stash, (k - 1) as nat);
    } else {
        assert(nav_ups(h, st, 0) == st);
    }
    assert(nav_ups(h, st, k) == nav_up(h, nav_ups(h, st, (k - 1) as nat)));
}

proof fn lemma_nav_downs(h: Seq<Seq<char>>, input: Seq<char>, j: int, d: nat)
    requires
        0 < j <= h.len(),
    ensures
        ({
            let st = nav_downs(h, (Some(j - 1), h[j - 1], input), d);
            &&& d < j ==> st == (Some(j - 1 - d), h[j - 1 - d], input)
            &&& d >= j ==> st == (None::<int>, input, input)
        }),
    decreases d,
{
    let st: NavState = (Some(j - 1), h[j - 1], input);
    if d > 0 {
        lemma_nav_downs(h, input, j, (d - 1) as nat);
        assert(nav_downs(h, st, d) == nav_down(h, nav_downs(h, st, (d - 1) as nat)));
    }
}

/// Recalling `k >= 1` searches with Up and then pressing Down `d` times:
/// while `d` is below the number `j` of searches recalled, Down walks back
/// through the newer ones; after that the typed input is back and
/// navigation has ended.
pub proof fn lemma_history_recall(h: Seq<Seq<char>>, input: Seq<char>, stash: Seq<char>, k: nat, d: nat)
    requires
        h.len() > 0,
        k >= 1,
    ensures
        ({
            let j = if k < h.len() { k as int } else { h.len() as int };
            let st = nav_downs(h, nav_ups(h, (None, input, stash), k), d);
            &&& d < j ==> st == (Some(j - 1 - d), h[j - 1 - d], input)
            &&& d >= j ==> st == (None::<int>, input, input)
        }),
{
    lemma_nav_ups(h, input, stash, k);
    let j = if k < h.len() { k as int } else { h.len() as int };
    lemma_nav_downs(h, input, j, d);
}

/// Pressing Tab nine times visits every panel once and comes back.
pub proof fn lemma_tab_cycle(p: Panel)
    ensures
        p.tab_target().tab_target().tab_target().tab_target().tab_target().tab_target().tab_target().tab_target().tab_target() == p,
{
}

/// Playback state mirrored from the player and the state file. `speed_milli`
/// is the playback speed in thousandths; `sleep_deadline` is a Unix time in
/// seconds.
pub struct NowPlaying {
    pub video: MediaInfo,
    pub position_secs: u64,
    pub duration_secs: u64,
    pub paused: bool,
    pub volume: u8,
    pub speed_milli: u32,
    pub repeat: RepeatMode,
    pub shuffle: bool,
    pub is_fav: bool,
    /// Whether the current video is in the play queue.
    pub in_queue: bool,
    pub sleep_deadline: Option<i64>,
    pub eq_preset: String,
}

/// The "add to playlist" popup: the video to add, the playlists to choose
/// from, and the highlighted one.
pub struct PlaylistPicker {
    pub video: MediaInfo,
    pub playlists: Vec<Playlist>,
    pub selected: usize,
}

/// Application state of the TUI.
pub struct App {
    pub panel: Panel,
    pub search_input: String,
    /// Every cached search result (all pages).
    pub all_search_results: Vec<MediaInfo>,
    /// The current page of `all_search_results`.
    pub search_results: Vec<MediaInfo>,
    /// Current page index (0-based).
    pub search_page: usize,
    /// Items per page.
    pub search_page_size: usize,
    pub selected_index: usize,
    pub now_playing: Option<NowPlaying>,
    pub status_message: Option<String>,
    pub should_quit: bool,
    pub queue_items: Vec<QueueEntry>,
    pub history_items: Vec<HistoryEntry>,
    /// Saved search queries (newest first), recalled with up/down in the Search panel.
    pub search_history: Vec<String>,
    /// Position within `search_history` while navigating it; `None` while
    /// editing a fresh query.
    pub search_history_index: Option<usize>,
    /// The in-progress input saved when history navigation started.
    pub search_input_stash: String,
    /// Kept equal to `panel`.
    pub mode: Panel,
    pub chat_input: String,
    pub chat_messages: Vec<ChatMessage>,
    /// Scroll offset of the chat messages (0 = bottom).
    pub chat_scroll: u16,
    /// Waiting for an AI response.
    pub chat_loading: bool,
    pub fav_items: Vec<FavoriteEntry>,
    /// Transcript of the current track.
    pub transcript: Option<Transcript>,
    /// Scroll offset of the lyrics panel (0 = follow the current segment).
    pub lyrics_scroll: u16,
    pub lyrics_auto_scroll: bool,
    pub playlist_list: Vec<Playlist>,
    pub playlist_items_view: Option<(String, Vec<PlaylistItem>)>,
    /// The playlist name being typed, when one is.
    pub playlist_name_input: Option<String>,
    pub playlist_picker: Option<PlaylistPicker>,
    pub help_scroll: u16,
    /// Saved playback positions, by video id.
    pub saved_positions: HashMap<String, u64>,
    /// A resume seek waiting until the stream has loaded.
    pub pending_resume_seek: Option<u64>,
    /// Source used by TUI searches.
    pub search_source: Source,
}

impl App {
    /// How many rows the current panel lists.
    pub open spec fn list_len(self) -> nat {
        match self.panel {
            Panel::Results => self.search_results@.len(),
            Panel::Queue => self.queue_items@.len(),
            Panel::Favorites => self.fav_items@.len(),
            Panel::History => self.history_items@.len(),
            Panel::Playlists => match self.playlist_items_view {
                Some(v) => v.1@.len(),
                None => self.playlist_list@.len(),
            },
            _ => 0,
        }
    }

    /// The number of result pages: at least one.
    pub open spec fn total_pages(self) -> int {
        let total = self.all_search_results@.len();
        if total == 0 {
            1
        } else {
            (total + self.search_page_size - 1) / self.search_page_size as int
        }
    }

    /// The results of page `page`.
    pub open spec fn page_slice(self, page: int) -> Seq<MediaInfo> {
        let start = page * self.search_page_size;
        let end = if start + self.search_page_size < self.all_search_results@.len() {
            start + self.search_page_size
        } else {
            self.all_search_results@.len() as int
        };
        self.all_search_results@.subrange(start, end)
    }

    /// The page size is positive and any page computation fits in `usize`.
    /// The search-history navigation state of the app.
    pub open spec fn nav_of(self) -> NavState {
        (
            match self.search_history_index {
                Some(i) => Some(i as int),
                None => None,
            },
            self.search_input@,
            self.search_input_stash@,
        )
    }

    pub open spec fn paging_ok(self) -> bool {
        &&& self.search_page_size > 0
        &&& self.all_search_results@.len() + self.search_page_size <= usize::MAX
    }

    pub fn new() -> (r: Self)
        ensures
            r.panel == Panel::Search,
            r.mode == Panel::Search,
            r.search_input@.len() == 0,
            r.all_search_results@.len() == 0,
            r.search_results@.len() == 0,
            r.search_page == 0,
            r.search_page_size == 10,
            r.selected_index == 0,
            r.now_playing is None,
            r.status_message is None,
            !r.should_quit,
            r.search_history@.len() == 0,
            r.search_history_index is None,
            r.chat_scroll == 0,
            !r.chat_loading,
            r.transcript is None,
            r.lyrics_auto_scroll,
            r.playlist_items_view is None,
            r.playlist_name_input is None,
            r.playlist_picker is None,
            r.pending_resume_seek is None,
            r.search_source == Source::YouTube,
            r.queue_items@.len() == 0,
            r.history_items@.len() == 0,
            r.fav_items@.len() == 0,
            r.playlist_list@.len() == 0,
            r.search_input_stash@.len() == 0,
            r.chat_input@.len() == 0,
            r.chat_messages@.len() == 0,
            r.lyrics_scroll == 0,
            r.help_scroll == 0,
            r.saved_positions@ == Map::<String, u64>::empty(),
    {
        App {
            panel: Panel::Search,
            mode: Panel::Search,
            search_input: String::new(),
            all_search_results: Vec::new(),
            search_results: Vec::new(),
            search_page: 0,
            search_page_size: 10,
            selected_index: 0,
            now_playing: None,
            status_message: None,
            should_quit: false,
            queue_items: Vec::new(),
            history_items: Vec::new(),
            search_history: Vec::new(),
            search_history_index: None,
            search_input_stash: String::new(),
            chat_input: String::new(),
            chat_messages: Vec::new(),
            chat_scroll: 0,
            chat_loading: false,
            fav_items: Vec::new(),
            transcript: None,
            lyrics_scroll: 0,
            lyrics_auto_scroll: true,
            playlist_list: Vec::new(),
            playlist_items_view: None,
            playlist_name_input: None,
            playlist_picker: None,
            help_scroll: 0,
            saved_positions: HashMap::new(),
            pending_resume_seek: None,
            search_source: Source::YouTube,
        }
    }

    /// Add a chat message and scroll to the bottom.
    pub fn push_chat_message(&mut self, role: &str, content: &str)
        ensures
            final(self).chat_messages@.len() == old(self).chat_messages@.len() + 1,
            final(self).chat_messages@.drop_last() == old(self).chat_messages@,
            final(self).chat_messages@.last().role@ == role@,
            final(self).chat_messages@.last().content@ == content@,
            *final(self) == (App { chat_messages: final(self).chat_messages, chat_scroll: 0, ..*old(self) }),
    {
        self.chat_messages.push(ChatMessage { role: string_of(&chars_of(role)), content: string_of(&chars_of(content)) });
        self.chat_scroll = 0;
    }

    pub fn set_status(&mut self, msg: String)
        ensures
            *final(self) == (App { status_message: Some(msg), ..*old(self) }),
    {
        self.status_message = Some(msg);
    }

    /// Switch panels: the selection goes back to the top and any search
    /// history navigation ends.
    pub fn set_panel(&mut self, panel: Panel)
        ensures
            *final(self) == (App {
                panel,
                mode: panel,
                selected_index: 0,
                search_history_index: None,
                search_input_stash: final(self).search_input_stash,
                ..*old(self)
            }),
            final(self).search_input_stash@.len() == 0,
    {
        self.selected_index = 0;
        self.mode = panel;
        self.panel = panel;
        self.cancel_search_history_nav();
    }

    /// Up in the Search panel: step back in search history, stashing the
    /// live input the first time.
    pub fn search_history_up(&mut self)
        requires
            old(self).search_history_index matches Some(i) ==> i < old(self).search_history@.len(),
        ensures
            *final(self) == (App {
                search_history_index: final(self).search_history_index,
                search_input: final(self).search_input,
                search_input_stash: final(self).search_input_stash,
                ..*old(self)
            }),
            old(self).search_history@.len() == 0 ==> *final(self) == *old(self),
            old(self).search_history@.len() > 0 ==> ({
                let next = match old(self).search_history_index {
                    None => 0,
                    Some(i) => if i + 1 < old(self).search_history@.len() {
                        i + 1
                    } else {
                        i as int
                    },
                };
                &&& final(self).search_history_index == Some(next as usize)
                &&& final(self).search_input@ == old(self).search_history@[next]@
                &&& final(self).search_input_stash@ == (if old(self).search_history_index is None {
                    old(self).search_input@
                } else {
                    old(self).search_input_stash@
                })
            }),
            final(self).panel == old(self).panel,
            final(self).nav_of() == nav_up(history_texts(old(self).search_history@), old(self).nav_of()),
    {
        if self.search_history.len() == 0 {
            return;
        }
        let next_idx = match self.search_history_index {
            None => {
                self.search_input_stash = string_of(&chars_of(self.search_input.as_str()));
                0
            },
            Some(i) => if i + 1 < self.search_history.len() {
                i + 1
            } else {
                i
            },
        };
        self.search_history_index = Some(next_idx);
        self.search_input = string_of(&chars_of(self.search_history[next_idx].as_str()));
    }

    /// Down in the Search panel: step forward in history, or restore the
    /// stashed input after the newest entry.
    pub fn search_history_down(&mut self)
        requires
            old(self).search_history_index matches Some(i) ==> i < old(self).search_history@.len(),
        ensures
            *final(self) == (App {
                search_history_index: final(self).search_history_index,
                search_input: final(self).search_input,
                ..*old(self)
            }),
            old(self).search_history_index is None ==> *final(self) == *old(self),
            old(self).search_history_index == Some(0usize) ==> final(self).search_history_index is None
                && final(self).search_input@ == old(self).search_input_stash@,
            old(self).search_history_index matches Some(i) ==> (i > 0 ==> final(self).search_history_index
                == Some((i - 1) as usize) && final(self).search_input@
                == old(self).search_history@[i - 1]@),
            final(self).panel == old(self).panel,
            final(self).nav_of() == nav_down(history_texts(old(self).search_history@), old(self).nav_of()),
    {
        match self.search_history_index {
            None => {},
            Some(i) => {
                if i == 0 {
                    self.search_history_index = None;
                    self.search_input = string_of(&chars_of(self.search_input_stash.as_str()));
                } else {
                    let next = i - 1;
                    self.search_history_index = Some(next);
                    self.search_input = string_of(&chars_of(self.search_history[next].as_str()));
                }
            },
        }
    }

    /// End history navigation (on typing or Enter).
    pub fn cancel_search_history_nav(&mut self)
        ensures
            *final(self) == (App {
                search_history_index: None,
                search_input_stash: final(self).search_input_stash,
                ..*old(self)
            }),
            final(self).search_input_stash@.len() == 0,
    {
        self.search_history_index = None;
        self.search_input_stash = String::new();
    }

    /// Move the selection down, stopping at the last row.
    pub fn select_next(&mut self)
        ensures
            *final(self) == (App {
                selected_index: (if old(self).list_len() > 0 && old(self).selected_index + 1
                    < old(self).list_len() {
                    old(self).selected_index + 1
                } else {
                    old(self).selected_index as int
                }) as usize,
                ..*old(self)
            }),
    {
        let max: usize = match self.panel {
            Panel::Results => self.search_results.len(),
            Panel::Queue => self.queue_items.len(),
            Panel::Favorites => self.fav_items.len(),
            Panel::History => self.history_items.len(),
            Panel::Playlists => match &self.playlist_items_view {
                Some(v) => v.1.len(),
                None => self.playlist_list.len(),
            },
            _ => 0,
        };
        if max > 0 && self.selected_index < max - 1 {
            self.selected_index = self.selected_index + 1;
        }
    }

    /// Move the selection up, stopping at the first row.
    pub fn select_prev(&mut self)
        ensures
            *final(self) == (App {
                selected_index: (if old(self).selected_index > 0 {
                    old(self).selected_index - 1
                } else {
                    0
                }) as usize,
                ..*old(self)
            }),
    {
        if self.selected_index > 0 {
            self.selected_index = self.selected_index - 1;
        }
    }

    /// Total number of search result pages.
    pub fn search_total_pages(&self) -> (r: usize)
        requires
            self.paging_ok(),
        ensures
            r == self.total_pages(),
            r >= 1,
    {
        let total = self.all_search_results.len();
        if total == 0 {
            return 1;
        }
        let size = self.search_page_size;
        proof {
            assert((total + size - 1) / (size as int) >= 1) by (nonlinear_arith)
                requires
                    size > 0,
                    total >= 1,
            ;
        }
        (total + size - 1) / size
    }

    /// Recompute `search_results` from the current page.
    fn refresh_search_page(&mut self)
        requires
            old(self).search_page_size > 0,
            old(self).search_page as int * old(self).search_page_size <= old(self).all_search_results@.len(),
            old(self).all_search_results@.len() + old(self).search_page_size <= usize::MAX,
        ensures
            final(self).search_results@ == old(self).page_slice(old(self).search_page as int),
            final(self).selected_index == 0,
            *final(self) == (App {
                search_results: final(self).search_results,
                selected_index: 0,
                ..*old(self)
            }),
            final(self).all_search_results == old(self).all_search_results,
            final(self).search_page == old(self).search_page,
            final(self).search_page_size == old(self).search_page_size,
            final(self).panel == old(self).panel,
    {
        let start = self.search_page * self.search_page_size;
        let end = if start + self.search_page_size < self.all_search_results.len() {
            start + self.search_page_size
        } else {
            self.all_search_results.len()
        };
        let mut page: Vec<MediaInfo> = Vec::new();
        let mut i = start;
        while i < end
            invariant
                start <= i <= end <= self.all_search_results@.len(),
                page@ == self.all_search_results@.subrange(start as int, i as int),
            decreases end - i,
        {
            page.push(self.all_search_results[i].clone());
            i = i + 1;
        }
        self.search_results = page;
        self.selected_index = 0;
    }

    /// Store a batch of search results and show the first page.
    pub fn set_search_results(&mut self, results: Vec<MediaInfo>)
        requires
            old(self).search_page_size > 0,
            results@.len() + old(self).search_page_size <= usize::MAX,
        ensures
            final(self).all_search_results == results,
            final(self).search_page == 0,
            final(self).search_results@ == final(self).page_slice(0),
            final(self).selected_index == 0,
            final(self).search_page_size == old(self).search_page_size,
            final(self).panel == old(self).panel,
    {
        self.all_search_results = results;
        self.search_page = 0;
        self.refresh_search_page();
    }

    /// Advance to the next page of search results, if there is one.
    pub fn search_next_page(&mut self)
        requires
            old(self).paging_ok(),
            old(self).search_page < old(self).total_pages(),
        ensures
            *final(self) == (App {
                search_page: final(self).search_page,
                search_results: final(self).search_results,
                selected_index: final(self).selected_index,
                ..*old(self)
            }),
            final(self).all_search_results == old(self).all_search_results,
            final(self).search_page_size == old(self).search_page_size,
            old(self).search_page + 1 < old(self).total_pages() ==> final(self).search_page
                == old(self).search_page + 1 && final(self).search_results@ == final(self).page_slice(
                final(self).search_page as int,
            ) && final(self).selected_index == 0,
            old(self).search_page + 1 >= old(self).total_pages() ==> *final(self) == *old(self),
    {
        if self.search_page + 1 < self.search_total_pages() {
            self.search_page = self.search_page + 1;
            proof {
                let total = self.all_search_results@.len();
                let size = self.search_page_size as int;
                assert(self.search_page * size <= total) by (nonlinear_arith)
                    requires
                        size > 0,
                        total > 0,
                        self.search_page < (total + size - 1) / size,
                ;
            }
            self.refresh_search_page();
        }
    }

    /// Go to the previous page of search results, if there is one.
    pub fn search_prev_page(&mut self)
        requires
            old(self).paging_ok(),
            old(self).search_page < old(self).total_pages(),
        ensures
            *final(self) == (App {
                search_page: final(self).search_page,
                search_results: final(self).search_results,
                selected_index: final(self).selected_index,
                ..*old(self)
            }),
            final(self).all_search_results == old(self).all_search_results,
            final(self).search_page_size == old(self).search_page_size,
            old(self).search_page > 0 ==> final(self).search_page == old(self).search_page - 1
                && final(self).search_results@ == final(self).page_slice(final(self).search_page as int)
                && final(self).selected_index == 0,
            old(self).search_page == 0 ==> *final(self) == *old(self),
    {
        if self.search_page > 0 {
            self.search_page = self.search_page - 1;
            proof {
                let total = self.all_search_results@.len();
                let size = self.search_page_size as int;
                let p = self.search_page as int;
                if total > 0 {
                    assert(p * size <= total) by (nonlinear_arith)
                        requires
                            size > 0,
                            total > 0,
                            p + 1 < (total + size - 1) / size + 1,
                    ;
                }
            }
            self.refresh_search_page();
        }
    }

    /// The index into `all_search_results` of row `local_idx` of the page.
    pub fn search_global_index(&self, local_idx: usize) -> (r: usize)
        requires
            self.search_page * self.search_page_size + local_idx <= usize::MAX,
        ensures
            r == self.search_page * self.search_page_size + local_idx,
    {
        self.search_page * self.search_page_size + local_idx
    }

    /// Refresh position, duration, pause state and volume of the current track.
    pub fn update_playback(&mut self, position: u64, duration: u64, paused: bool, volume: u8)
        ensures
            old(self).now_playing is None ==> final(self).now_playing is None,
            old(self).now_playing is Some ==> (final(self).now_playing matches Some(np) && np.position_secs
                == position && np.duration_secs == duration && np.paused == paused && np.volume == volume
                && np.video == old(self).now_playing->0.video && np.speed_milli == old(self).now_playing->0.speed_milli
                && np.repeat == old(self).now_playing->0.repeat && np.shuffle == old(self).now_playing->0.shuffle),
            final(self).panel == old(self).panel,
    {
        match &mut self.now_playing {
            Some(np) => {
                np.position_secs = position;
                np.duration_secs = duration;
                np.paused = paused;
                np.volume = volume;
            },
            None => {},
        }
    }

    /// Refresh speed, repeat, shuffle, sleep deadline and equalizer preset.
    pub fn update_player_meta(
        &mut self,
        speed_milli: u32,
        repeat: RepeatMode,
        shuffle: bool,
        sleep_deadline: Option<i64>,
        eq_preset: String,
    )
        ensures
            old(self).now_playing is None ==> final(self).now_playing is None,
            old(self).now_playing is Some ==> (final(self).now_playing matches Some(np) && np.speed_milli
                == speed_milli && np.repeat == repeat && np.shuffle == shuffle && np.sleep_deadline
                == sleep_deadline && np.eq_preset == eq_preset && np.video == old(self).now_playing->0.video
                && np.position_secs == old(self).now_playing->0.position_secs),
            final(self).panel == old(self).panel,
    {
        match &mut self.now_playing {
            Some(np) => {
                np.speed_milli = speed_milli;
                np.repeat = repeat;
                np.shuffle = shuffle;
                np.sleep_deadline = sleep_deadline;
                np.eq_preset = eq_preset;
            },
            None => {},
        }
    }

    /// Open the "add to playlist" popup for a video.
    pub fn open_playlist_picker(&mut self, video: MediaInfo, playlists: Vec<Playlist>)
        ensures
            *final(self) == (App {
                playlist_picker: Some(PlaylistPicker { video, playlists, selected: 0 }),
                ..*old(self)
            }),
    {
        self.playlist_picker = Some(PlaylistPicker { video, playlists, selected: 0 });
    }

    /// Move the picker selection up.
    pub fn picker_prev(&mut self)
        ensures
            *final(self) == (App { playlist_picker: final(self).playlist_picker, ..*old(self) }),
            old(self).playlist_picker is None ==> final(self).playlist_picker is None,
            old(self).playlist_picker matches Some(pk) ==> (final(self).playlist_picker matches Some(q)
                && q.selected == (if pk.selected > 0 { pk.selected - 1 } else { 0 })
                && q.playlists == pk.playlists && q.video == pk.video),
    {
        match &mut self.playlist_picker {
            Some(pk) => {
                if pk.selected > 0 {
                    pk.selected = pk.selected - 1;
                }
            },
            None => {},
        }
    }

    /// Move the picker selection down, stopping at the last playlist.
    pub fn picker_next(&mut self)
        ensures
            *final(self) == (App { playlist_picker: final(self).playlist_picker, ..*old(self) }),
            old(self).playlist_picker is None ==> final(self).playlist_picker is None,
            old(self).playlist_picker matches Some(pk) ==> (final(self).playlist_picker matches Some(q)
                && q.selected == (if pk.selected + 1 < pk.playlists@.len() {
                pk.selected + 1
            } else {
                pk.selected as int
            }) && q.playlists == pk.playlists && q.video == pk.video),
    {
        match &mut self.playlist_picker {
            Some(pk) => {
                let n = pk.playlists.len();
                if n > 0 && pk.selected < n - 1 {
                    pk.selected = pk.selected + 1;
                }
            },
            None => {},
        }
    }

    /// Close the picker popup.
    pub fn close_playlist_picker(&mut self)
        ensures
            *final(self) == (App { playlist_picker: None, ..*old(self) }),
    {
        self.playlist_picker = None;
    }

    /// Cycle the search source through the searchable sources
    /// (YouTube → SoundCloud → YT Music → YouTube) and report it; a source
    /// that cannot search counts as the first one.
    pub fn cycle_search_source(&mut self)
        ensures
            final(self).search_source == (match old(self).search_source {
                Source::YouTube => Source::SoundCloud,
                Source::SoundCloud => Source::YTMusic,
                Source::YTMusic => Source::YouTube,
                _ => Source::SoundCloud,
            }),
            final(self).status_message matches Some(m) && m@ == "Search source: "@
                + final(self).search_source.display_text(),
            *final(self) == (App {
                search_source: final(self).search_source,
                status_message: final(self).status_message,
                ..*old(self)
            }),
    {
        let searchable = Source::searchable();
        let cur = self.search_source;
        let mut pos: usize = 0;
        let mut found = false;
        let mut i: usize = 0;
        while i < searchable.len()
            invariant
                searchable@ == searchable_sources(),
                i <= 3,
                pos < 3,
                found ==> pos < i && searchable@[pos as int] == cur,
                !found ==> pos == 0 && forall|j: int| 0 <= j < i ==> searchable@[j] != cur,
            decreases 3 - i,
        {
            if !found && searchable[i] == cur {
                pos = i;
                found = true;
            }
            i = i + 1;
        }
        assert(searchable@[0] == Source::YouTube && searchable@[1] == Source::SoundCloud && searchable@[2]
            == Source::YTMusic);
        let next_pos = (pos + 1) % searchable.len();
        self.search_source = searchable[next_pos];
        let mut msg: Vec<char> = Vec::new();
        append_str(&mut msg, "Search source: ");
        append_str(&mut msg, self.search_source.display_name());
        self.set_status(string_of(&msg));
    }
}


impl App {
    /// After an item left a playlist's list of `len` items: a selection past
    /// the end moves to the last item, and an empty list selects the top.
    pub fn clamp_after_item_removal(&mut self, len: usize)
        ensures
            *final(self) == (App {
                selected_index: if len == 0 {
                    0
                } else if old(self).selected_index >= len {
                    (len - 1) as usize
                } else {
                    old(self).selected_index
                },
                ..*old(self)
            }),
    {
        if self.selected_index >= len && len > 0 {
            self.selected_index = len - 1;
        } else if len == 0 {
            self.selected_index = 0;
        }
    }

    /// After a playlist was deleted, leaving `len`: a selection past the end
    /// moves to the last playlist.
    pub fn clamp_after_playlist_delete(&mut self, len: usize)
        ensures
            *final(self) == (App {
                selected_index: if old(self).selected_index > 0 && old(self).selected_index >= len {
                    if len > 0 { (len - 1) as usize } else { 0 }
                } else {
                    old(self).selected_index
                },
                ..*old(self)
            }),
    {
        if self.selected_index > 0 && self.selected_index >= len {
            self.selected_index = if len > 0 { len - 1 } else { 0 };
        }
    }

    /// `"Found {n} results (page 1/{pages})"` after a search landed.
    pub open spec fn found_text(self) -> Seq<char> {
        "Found "@ + crate::text::decimal(self.all_search_results@.len()) + " results (page 1/"@
            + crate::text::decimal(self.total_pages() as nat) + ")"@
    }

    pub fn found_status(&self) -> (r: String)
        requires
            self.paging_ok(),
        ensures
            r@ == self.found_text(),
    {
        let mut out: Vec<char> = Vec::new();
        append_str(&mut out, "Found ");
        push_decimal(&mut out, self.all_search_results.len() as u64);
        append_str(&mut out, " results (page 1/");
        let pages = self.search_total_pages();
        push_decimal(&mut out, pages as u64);
        append_str(&mut out, ")");
        string_of(&out)
    }
}

impl NowPlaying {
    /// A track that just started: at the top, unpaused, volume 80, normal
    /// speed, no repeat, shuffle, sleep timer or equalizer.
    pub fn started(video: MediaInfo, is_fav: bool, in_queue: bool) -> (r: NowPlaying)
        ensures
            r.video == video,
            r.position_secs == 0,
            r.duration_secs == (match video.duration {
                Some(d) => d,
                None => 0,
            }),
            !r.paused,
            r.volume == 80,
            r.speed_milli == 1000,
            r.repeat == RepeatMode::Off,
            !r.shuffle,
            r.is_fav == is_fav,
            r.in_queue == in_queue,
            r.sleep_deadline is None,
            r.eq_preset@ == "flat"@,
    {
        let duration_secs = match video.duration {
            Some(d) => d,
            None => 0,
        };
        NowPlaying {
            video,
            position_secs: 0,
            duration_secs,
            paused: false,
            volume: 80,
            speed_milli: 1000,
            repeat: RepeatMode::Off,
            shuffle: false,
            is_fav,
            in_queue,
            sleep_deadline: None,
            eq_preset: string_of(&chars_of("flat")),
        }
    }
}

/// The page count is the least number of pages of `search_page_size`
/// results that hold every result: one fewer page would not hold them all,
/// so every page counted has at least one result. With no results there is
/// a single (empty) page.
pub proof fn lemma_total_pages_least(app: App)
    requires
        app.paging_ok(),
    ensures
        app.all_search_results@.len() == 0 ==> app.total_pages() == 1,
        app.all_search_results@.len() > 0 ==> {
            let n = app.total_pages();
            let s = app.search_page_size as int;
            let total = app.all_search_results@.len() as int;
            &&& n >= 1
            &&& (n - 1) * s < total
            &&& total <= n * s
        },
{
    let total = app.all_search_results@.len() as int;
    let s = app.search_page_size as int;
    if total > 0 {
        let n = app.total_pages();
        assert(n == (total + s - 1) / s);
        assert(n >= 1 && (n - 1) * s < total && total <= n * s) by (nonlinear_arith)
            requires
                s > 0,
                total > 0,
                n == (total + s - 1) / s,
        {
            let r = (total + s - 1) % s;
            assert(total + s - 1 == s * n + r);
            assert(0 <= r < s);
        }
    }
}

} // verus!
