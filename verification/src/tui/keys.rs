use vstd::prelude::*;

use super::app::{App, Panel, PlaylistPicker};
use crate::media::source::Source;
use crate::media::types::MediaInfo;
use crate::text::{append_str, chars_of, push_decimal, string_of, trim, trim_chars};

verus! {

/// A key press, as the TUI distinguishes them.
#[derive(Debug, Clone, Copy, PartialEq, Eq, Structural)]
pub enum KeyInput {
    Tab,
    Esc,
    Enter,
    Up,
    Down,
    Left,
    Right,
    ShiftUp,
    ShiftDown,
    ShiftLeft,
    ShiftRight,
    Backspace,
    CtrlS,
    CtrlC,
    Char(char),
}

/// A player control reachable from any panel while something plays.
#[derive(Debug, Clone, Copy, PartialEq, Eq, Structural)]
pub enum PlayerKey {
    TogglePause,
    /// Seek by this many seconds.
    Seek(i32),
    VolumeUp,
    VolumeDown,
    SpeedUp,
    SpeedDown,
    Next,
    Prev,
    Stop,
    CycleRepeat,
    ToggleShuffle,
    ToggleFavorite,
    ToggleQueue,
    CycleSleep,
    CycleEqualizer,
}

/// The outside work a key press asks for; indices refer to the list shown
/// by the panel when the key was pressed.
pub enum KeyEffect {
    Nothing,
    /// Reload from the library the list that `panel` shows.
    LoadPanel(Panel),
    /// Add the video to the playlist of that name.
    AddToPlaylist(MediaInfo, String),
    /// Search for the current `search_input`.
    StartSearch { fetch_count: usize, source: Source },
    PlayResult(usize),
    AddResultToQueue(usize),
    ToggleResultFavorite(usize),
    PickPlaylistForResult(usize),
    PlayQueueEntry(usize),
    RemoveQueueEntry(usize),
    PickPlaylistForQueueEntry(usize),
    PlayFavorite(usize),
    RemoveFavorite(usize),
    PickPlaylistForFavorite(usize),
    PlayHistory(usize),
    PickPlaylistForHistory(usize),
    /// Create a playlist with this (trimmed, non-empty) name.
    CreatePlaylist(String),
    /// Show the items of this playlist.
    OpenPlaylist(usize),
    /// Play this item of the open playlist and queue the ones after it.
    PlayPlaylistFrom(usize),
    /// Load this playlist into the queue and play it.
    PlayPlaylist(usize),
    RemovePlaylistItem(usize),
    DeletePlaylist(usize),
    /// Send the last chat message (just added) to the AI.
    SendChat,
    Player(PlayerKey),
}

/// The player control a key stands for, when a panel did not use the key.
pub open spec fn player_key(key: KeyInput, panel: Panel) -> Option<PlayerKey> {
    match key {
        KeyInput::Char(' ') => Some(PlayerKey::TogglePause),
        KeyInput::Left => if panel != Panel::Results && panel != Panel::Queue && panel != Panel::History {
            Some(PlayerKey::Seek(-10i32))
        } else {
            None
        },
        KeyInput::Right => if panel != Panel::Results && panel != Panel::Queue && panel != Panel::History {
            Some(PlayerKey::Seek(10i32))
        } else {
            None
        },
        KeyInput::ShiftLeft => Some(PlayerKey::Seek(-60i32)),
        KeyInput::ShiftRight => Some(PlayerKey::Seek(60i32)),
        KeyInput::Char('+') | KeyInput::Char('=') => Some(PlayerKey::VolumeUp),
        KeyInput::Char('-') => Some(PlayerKey::VolumeDown),
        KeyInput::Char(']') => Some(PlayerKey::SpeedUp),
        KeyInput::Char('[') => Some(PlayerKey::SpeedDown),
        KeyInput::Char('n') => Some(PlayerKey::Next),
        KeyInput::Char('p') => Some(PlayerKey::Prev),
        KeyInput::Char('S') => Some(PlayerKey::Stop),
        KeyInput::Char('r') => Some(PlayerKey::CycleRepeat),
        KeyInput::Char('z') => Some(PlayerKey::ToggleShuffle),
        KeyInput::Char('f') => Some(PlayerKey::ToggleFavorite),
        KeyInput::Char('a') => Some(PlayerKey::ToggleQueue),
        KeyInput::Char('t') => Some(PlayerKey::CycleSleep),
        KeyInput::Char('e') => Some(PlayerKey::CycleEqualizer),
        _ => None,
    }
}

fn player_key_exec(key: KeyInput, panel: Panel) -> (r: Option<PlayerKey>)
    ensures
        r == player_key(key, panel),
{
    match key {
        KeyInput::Char(' ') => Some(PlayerKey::TogglePause),
        KeyInput::Left => if panel != Panel::Results && panel != Panel::Queue && panel != Panel::History {
            Some(PlayerKey::Seek(-10))
        } else {
            None
        },
        KeyInput::Right => if panel != Panel::Results && panel != Panel::Queue && panel != Panel::History {
            Some(PlayerKey::Seek(10))
        } else {
            None
        },
        KeyInput::ShiftLeft => Some(PlayerKey::Seek(-60)),
        KeyInput::ShiftRight => Some(PlayerKey::Seek(60)),
        KeyInput::Char('+') | KeyInput::Char('=') => Some(PlayerKey::VolumeUp),
        KeyInput::Char('-') => Some(PlayerKey::VolumeDown),
        KeyInput::Char(']') => Some(PlayerKey::SpeedUp),
        KeyInput::Char('[') => Some(PlayerKey::SpeedDown),
        KeyInput::Char('n') => Some(PlayerKey::Next),
        KeyInput::Char('p') => Some(PlayerKey::Prev),
        KeyInput::Char('S') => Some(PlayerKey::Stop),
        KeyInput::Char('r') => Some(PlayerKey::CycleRepeat),
        KeyInput::Char('z') => Some(PlayerKey::ToggleShuffle),
        KeyInput::Char('f') => Some(PlayerKey::ToggleFavorite),
        KeyInput::Char('a') => Some(PlayerKey::ToggleQueue),
        KeyInput::Char('t') => Some(PlayerKey::CycleSleep),
        KeyInput::Char('e') => Some(PlayerKey::CycleEqualizer),
        _ => None,
    }
}

/// The history entry that Up recalls: the newest first, then older ones,
/// staying at the oldest.
pub open spec fn history_up_index(current: Option<usize>, len: nat) -> int {
    match current {
        None => 0,
        Some(i) => if i + 1 < len { i + 1 } else { i as int },
    }
}

/// The library list that must be reloaded before a panel shows.
pub open spec fn panel_needs_load(p: Panel) -> bool {
    p == Panel::Queue || p == Panel::Favorites || p == Panel::History || p == Panel::Playlists
}

fn lit(s: &str) -> (r: String)
    ensures
        r@ == s@,
{
    string_of(&chars_of(s))
}

/// `s` without its last character.
fn pop_char(s: &mut String)
    ensures
        final(s)@ == if old(s)@.len() > 0 {
            old(s)@.drop_last()
        } else {
            old(s)@
        },
{
    let _ = s.pop();
}

fn sat_inc(x: u16) -> (r: u16)
    ensures
        r == if x < u16::MAX { (x + 1) as u16 } else { x },
{
    if x < 65535 {
        x + 1
    } else {
        x
    }
}

fn sat_dec(x: u16) -> (r: u16)
    ensures
        r == if x > 0 { (x - 1) as u16 } else { x },
{
    if x > 0 {
        x - 1
    } else {
        x
    }
}

impl App {
    /// `"Page {page}/{total}"` for the current page, counted from one.
    pub open spec fn page_status_text(self) -> Seq<char> {
        "Page "@ + crate::text::decimal((self.search_page + 1) as nat) + "/"@ + crate::text::decimal(
            self.total_pages() as nat,
        )
    }

    fn page_status(&self) -> (r: String)
        requires
            self.paging_ok(),
            self.search_page < self.total_pages(),
        ensures
            r@ == self.page_status_text(),
    {
        let mut out: Vec<char> = Vec::new();
        append_str(&mut out, "Page ");
        push_decimal(&mut out, (self.search_page + 1) as u64);
        append_str(&mut out, "/");
        let total = self.search_total_pages();
        push_decimal(&mut out, total as u64);
        string_of(&out)
    }

    /// What key handling needs of the state: paging that fits in `usize`,
    /// a current page that exists, a history position inside the history,
    /// and room to fetch five pages of results.
    pub open spec fn keys_ok(self) -> bool {
        &&& self.paging_ok()
        &&& self.search_page < self.total_pages()
        &&& self.search_history_index matches Some(i) ==> i < self.search_history@.len()
        &&& self.search_page_size * 5 <= usize::MAX
    }

    /// Whether `keys_ok` holds.
    pub fn keys_ready(&self) -> (r: bool)
        ensures
            r == self.keys_ok(),
    {
        if self.search_page_size == 0 || self.search_page_size > usize::MAX / 5 {
            return false;
        }
        if self.all_search_results.len() > usize::MAX - self.search_page_size {
            return false;
        }
        let pages = self.search_total_pages();
        if self.search_page >= pages {
            return false;
        }
        match self.search_history_index {
            Some(i) => i < self.search_history.len(),
            None => true,
        }
    }

    /// The results shown are the current page, with its first row selected
    /// and the page reported in the status line.
    pub open spec fn shows_page_start(self) -> bool {
        &&& self.search_results@ == self.page_slice(self.search_page as int)
        &&& self.selected_index == 0
        &&& self.status_message matches Some(m) && m@ == self.page_status_text()
    }

    /// `new` is `self` switched to panel `p`: the selection back at the top
    /// and search-history navigation ended; nothing else changes.
    pub open spec fn switched_to(self, new: App, p: Panel) -> bool {
        &&& new == (App {
            panel: p,
            mode: p,
            selected_index: 0,
            search_history_index: None,
            search_input_stash: new.search_input_stash,
            ..self
        })
        &&& new.search_input_stash@.len() == 0
    }

    /// Keys that the panel does not count as its own but acts on all the same.
    pub open spec fn acts_on_unused(self, key: KeyInput) -> bool {
        ||| self.panel == Panel::Search && (key == KeyInput::CtrlS || key == KeyInput::Esc || key == KeyInput::Char(
            'q',
        ) || key == KeyInput::Char('?') || key == KeyInput::Enter || key == KeyInput::Backspace)
        ||| self.panel == Panel::Chat && (key == KeyInput::Esc || key == KeyInput::Backspace)
    }

    /// Whether Up/Down move a list selection in the current panel.
    pub open spec fn navigates_list(self) -> bool {
        ||| self.panel == Panel::Results
        ||| self.panel == Panel::Queue
        ||| self.panel == Panel::Favorites
        ||| self.panel == Panel::History
        ||| self.panel == Panel::Playlists && self.playlist_name_input is None
    }

    /// Whether the key is one the current panel uses itself (so it does not
    /// reach the player controls), given no picker is open and it is not Tab.
    pub open spec fn panel_uses_key(self, key: KeyInput) -> bool {
        match self.panel {
            Panel::Search => key == KeyInput::Up || key == KeyInput::Down || (key is Char && key != KeyInput::Char('q')
                && key != KeyInput::Char('?')),
            Panel::Results => key == KeyInput::Esc || key == KeyInput::Up || key == KeyInput::Down || key == KeyInput::Enter
                || key == KeyInput::Left || key == KeyInput::Right || key == KeyInput::Char('q') || key
                == KeyInput::Char('k') || key == KeyInput::Char('j') || key == KeyInput::Char('a') || key
                == KeyInput::Char('f') || key == KeyInput::Char('l') || key == KeyInput::Char('/'),
            Panel::Lyrics => true,
            Panel::Queue => key == KeyInput::Esc || key == KeyInput::Up || key == KeyInput::Down || key == KeyInput::Enter
                || key == KeyInput::Char('q') || key == KeyInput::Char('k') || key == KeyInput::Char('j') || key
                == KeyInput::Char('d') || key == KeyInput::Char('l'),
            Panel::Favorites => key == KeyInput::Esc || key == KeyInput::Up || key == KeyInput::Down || key
                == KeyInput::Enter || key == KeyInput::Char('q') || key == KeyInput::Char('k') || key
                == KeyInput::Char('j') || key == KeyInput::Char('d') || key == KeyInput::Char('l'),
            Panel::History => key == KeyInput::Esc || key == KeyInput::Up || key == KeyInput::Down || key
                == KeyInput::Enter || key == KeyInput::Char('q') || key == KeyInput::Char('k') || key
                == KeyInput::Char('j') || key == KeyInput::Char('l'),
            Panel::Playlists => self.playlist_name_input is Some || key == KeyInput::Esc || key == KeyInput::Up
                || key == KeyInput::Down || key == KeyInput::Enter || key == KeyInput::Char('q') || key
                == KeyInput::Char('k') || key == KeyInput::Char('j') || key == KeyInput::Char('d') || (
            self.playlist_items_view is None && (key == KeyInput::Char('p') || key == KeyInput::Char('n'))),
            Panel::Chat => key == KeyInput::Enter || key == KeyInput::Up || key == KeyInput::Down || key is Char,
            Panel::Help => true,
        }
    }

    /// Handle a key press: update the TUI state and return the outside work
    /// it asks for. `playing` tells whether a player is running.
    #[verifier::rlimit(80)]
    pub fn handle_key(&mut self, key: KeyInput, playing: bool) -> (r: KeyEffect)
        requires
            old(self).keys_ok(),
        ensures
            final(self).keys_ok(),
            // Keys never touch the stored results, the library lists, the track or its transcript.
            final(self).all_search_results == old(self).all_search_results,
            final(self).search_page_size == old(self).search_page_size,
            final(self).queue_items == old(self).queue_items,
            final(self).fav_items == old(self).fav_items,
            final(self).history_items == old(self).history_items,
            final(self).playlist_list == old(self).playlist_list,
            final(self).now_playing == old(self).now_playing,
            final(self).transcript == old(self).transcript,
            final(self).saved_positions == old(self).saved_positions,
            // The picker, when open, takes every key.
            old(self).playlist_picker matches Some(pk) ==> ({
                &&& key == KeyInput::Esc ==> (final(self).playlist_picker is None && r is Nothing
                    && (final(self).status_message matches Some(m) && m@ == "Cancelled"@))
                &&& key == KeyInput::Enter ==> final(self).playlist_picker is None && (if pk.selected
                    < pk.playlists@.len() {
                    r == KeyEffect::AddToPlaylist(pk.video, pk.playlists@[pk.selected as int].name)
                } else {
                    r is Nothing
                })
                &&& key != KeyInput::Esc && key != KeyInput::Enter ==> r is Nothing
                &&& key == KeyInput::Up ==> (final(self).playlist_picker matches Some(q) && q.selected
                    == (if pk.selected > 0 { pk.selected - 1 } else { 0 }))
                &&& key == KeyInput::Down ==> (final(self).playlist_picker matches Some(q) && q.selected
                    == (if pk.selected + 1 < pk.playlists@.len() { pk.selected + 1 } else { pk.selected as int }))
            }),
            // Up/Down (or k/j) move the selection of a list, stopping at its ends.
            old(self).playlist_picker is None && old(self).navigates_list() && (key == KeyInput::Up || key
                == KeyInput::Char('k')) ==> final(self).selected_index == (if old(self).selected_index > 0 {
                old(self).selected_index - 1
            } else {
                0
            }),
            old(self).playlist_picker is None && old(self).navigates_list() && (key == KeyInput::Down || key
                == KeyInput::Char('j')) ==> final(self).selected_index == (if old(self).selected_index + 1
                < old(self).list_len() {
                old(self).selected_index + 1
            } else {
                old(self).selected_index as int
            }),
            // Tab switches to the next panel, reloading its list if it has one.
            old(self).playlist_picker is None && key == KeyInput::Tab ==> ({
                let next = old(self).panel.tab_target();
                &&& final(self).panel == next
                &&& final(self).selected_index == 0
                &&& (panel_needs_load(next) ==> r == KeyEffect::LoadPanel(next))
                &&& (next == Panel::Playlists ==> final(self).playlist_items_view is None)
                &&& (!panel_needs_load(next) ==> r is Nothing)
            }),
            // Keys a panel does not use: `c` opens the chat; the others change
            // nothing and reach the player controls while playing.
            old(self).playlist_picker is None && key != KeyInput::Tab && !old(self).panel_uses_key(key)
                && !old(self).acts_on_unused(key) ==> (if key == KeyInput::Char('c') {
                old(self).switched_to(*final(self), Panel::Chat) && r is Nothing
            } else {
                *final(self) == *old(self) && (if playing && player_key(key, old(self).panel) is Some {
                    r == KeyEffect::Player(player_key(key, old(self).panel)->0)
                } else {
                    r is Nothing
                })
            }),
            // What each key changes, and that it changes nothing else.
            old(self).playlist_picker matches Some(pk) ==> ({
                &&& *final(self) == (App {
                    playlist_picker: final(self).playlist_picker,
                    status_message: final(self).status_message,
                    ..*old(self)
                })
                &&& key != KeyInput::Esc ==> final(self).status_message == old(self).status_message
                &&& (key != KeyInput::Esc && key != KeyInput::Enter && key != KeyInput::Up && key != KeyInput::Down)
                    ==> final(self).playlist_picker == old(self).playlist_picker
                &&& (key == KeyInput::Up || key == KeyInput::Down) ==> (final(self).playlist_picker matches Some(q)
                    && q.video == pk.video && q.playlists == pk.playlists)
            }),
            old(self).playlist_picker is None && key == KeyInput::Tab ==> ({
                let next = old(self).panel.tab_target();
                &&& *final(self) == (App {
                    panel: next,
                    mode: next,
                    selected_index: 0,
                    search_history_index: None,
                    search_input_stash: final(self).search_input_stash,
                    playlist_items_view: if next == Panel::Playlists { None } else { old(self).playlist_items_view },
                    ..*old(self)
                })
                &&& final(self).search_input_stash@.len() == 0
            }),
            old(self).playlist_picker is None && old(self).panel == Panel::Search && key != KeyInput::Tab ==> ({
                &&& key == KeyInput::CtrlS ==> *final(self) == (App {
                    search_source: final(self).search_source,
                    status_message: final(self).status_message,
                    ..*old(self)
                }) && (final(self).status_message matches Some(m) && m@ == "Search source: "@
                    + final(self).search_source.display_text())
                &&& (key == KeyInput::Esc || key == KeyInput::Char('q')) ==> r is Nothing && *final(self) == (App {
                    should_quit: true,
                    ..*old(self)
                })
                &&& key == KeyInput::Char('?') ==> r is Nothing && old(self).switched_to(*final(self), Panel::Help)
                &&& key == KeyInput::Up ==> *final(self) == (App {
                    search_history_index: final(self).search_history_index,
                    search_input: final(self).search_input,
                    search_input_stash: final(self).search_input_stash,
                    ..*old(self)
                }) && (old(self).search_history@.len() > 0 ==> final(self).search_input_stash@ == (if old(
                    self,
                ).search_history_index is None {
                    old(self).search_input@
                } else {
                    old(self).search_input_stash@
                })) && (old(self).search_history@.len() == 0 ==> *final(self) == *old(self))
                &&& key == KeyInput::Down ==> *final(self) == (App {
                    search_history_index: final(self).search_history_index,
                    search_input: final(self).search_input,
                    ..*old(self)
                })
                &&& key == KeyInput::Enter ==> (if old(self).search_input@.len() > 0 {
                    *final(self) == (App {
                        search_history_index: None,
                        search_input_stash: final(self).search_input_stash,
                        status_message: final(self).status_message,
                        ..*old(self)
                    }) && final(self).search_input_stash@.len() == 0
                } else {
                    r is Nothing && *final(self) == *old(self)
                })
                &&& (key == KeyInput::Backspace || (key is Char && key != KeyInput::Char('q') && key
                    != KeyInput::Char('?'))) ==> r is Nothing && *final(self) == (App {
                    search_history_index: None,
                    search_input_stash: final(self).search_input_stash,
                    search_input: final(self).search_input,
                    ..*old(self)
                }) && final(self).search_input_stash@.len() == 0
            }),
            old(self).playlist_picker is None && old(self).navigates_list() && (key == KeyInput::Up || key
                == KeyInput::Char('k') || key == KeyInput::Down || key == KeyInput::Char('j')) ==> r is Nothing
                && *final(self) == (App { selected_index: final(self).selected_index, ..*old(self) }),
            old(self).playlist_picker is None && old(self).panel == Panel::Results ==> ({
                &&& (key == KeyInput::Esc || key == KeyInput::Char('q')) ==> r is Nothing && old(self).switched_to(
                    *final(self),
                    Panel::Search,
                )
                &&& key == KeyInput::Char('/') ==> r is Nothing && *final(self) == (App {
                    panel: Panel::Search,
                    mode: Panel::Search,
                    selected_index: 0,
                    search_history_index: None,
                    search_input_stash: final(self).search_input_stash,
                    search_input: final(self).search_input,
                    ..*old(self)
                })
                &&& (key == KeyInput::Enter || key == KeyInput::Char('a') || key == KeyInput::Char('f') || key
                    == KeyInput::Char('l')) ==> *final(self) == *old(self)
                &&& (key == KeyInput::Right || key == KeyInput::Left) ==> *final(self) == (App {
                    search_page: final(self).search_page,
                    search_results: final(self).search_results,
                    selected_index: final(self).selected_index,
                    status_message: final(self).status_message,
                    ..*old(self)
                }) && (final(self).search_page == old(self).search_page ==> *final(self) == *old(self))
            }),
            old(self).playlist_picker is None && old(self).panel == Panel::Lyrics && key != KeyInput::Tab ==> ({
                &&& (key == KeyInput::Esc || key == KeyInput::Char('q')) ==> old(self).switched_to(
                    *final(self),
                    Panel::Search,
                )
                &&& (key == KeyInput::ShiftUp || key == KeyInput::ShiftDown || key == KeyInput::Char('0'))
                    ==> *final(self) == (App {
                    lyrics_auto_scroll: final(self).lyrics_auto_scroll,
                    lyrics_scroll: final(self).lyrics_scroll,
                    ..*old(self)
                })
                &&& !(key == KeyInput::Esc || key == KeyInput::Char('q') || key == KeyInput::ShiftUp || key
                    == KeyInput::ShiftDown || key == KeyInput::Char('0')) ==> *final(self) == *old(self)
            }),
            old(self).playlist_picker is None && (old(self).panel == Panel::Queue || old(self).panel
                == Panel::Favorites || old(self).panel == Panel::History) ==> ({
                &&& (key == KeyInput::Esc || key == KeyInput::Char('q')) ==> r is Nothing && old(
                    self,
                ).switched_to(*final(self), Panel::Search)
                &&& (key == KeyInput::Enter || key == KeyInput::Char('d') || key == KeyInput::Char('l'))
                    ==> *final(self) == *old(self)
            }),
            old(self).playlist_picker is None && old(self).panel == Panel::Playlists && key != KeyInput::Tab ==> ({
                &&& old(self).playlist_name_input is Some ==> ({
                    &&& (key == KeyInput::Esc || key == KeyInput::Enter) ==> *final(self) == (App {
                        playlist_name_input: None,
                        status_message: final(self).status_message,
                        ..*old(self)
                    })
                    &&& (key == KeyInput::Enter && r is CreatePlaylist) ==> final(self).status_message
                        == old(self).status_message
                    &&& (key == KeyInput::Backspace || key is Char) ==> r is Nothing && *final(self) == (App {
                        playlist_name_input: final(self).playlist_name_input,
                        ..*old(self)
                    })
                    &&& !(key == KeyInput::Esc || key == KeyInput::Enter || key == KeyInput::Backspace
                        || key is Char) ==> r is Nothing && *final(self) == *old(self)
                })
                &&& old(self).playlist_name_input is None ==> ({
                    &&& (key == KeyInput::Esc || key == KeyInput::Char('q')) ==> (if old(
                        self,
                    ).playlist_items_view is Some {
                        *final(self) == (App { playlist_items_view: None, selected_index: 0, ..*old(self) })
                    } else {
                        r is Nothing && old(self).switched_to(*final(self), Panel::Search)
                    })
                    &&& (key == KeyInput::Enter || key == KeyInput::Char('d') || (key == KeyInput::Char('p')
                        && old(self).playlist_items_view is None)) ==> *final(self) == *old(self)
                    &&& (key == KeyInput::Char('n') && old(self).playlist_items_view is None) ==> r is Nothing
                        && *final(self) == (App {
                        playlist_name_input: final(self).playlist_name_input,
                        status_message: final(self).status_message,
                        ..*old(self)
                    })
                })
            }),
            old(self).playlist_picker is None && old(self).panel == Panel::Chat && key != KeyInput::Tab ==> ({
                &&& key == KeyInput::Esc ==> r is Nothing && old(self).switched_to(*final(self), Panel::Search)
                &&& key == KeyInput::Enter ==> (if trim(old(self).chat_input@).len() > 0 {
                    *final(self) == (App {
                        chat_input: final(self).chat_input,
                        chat_messages: final(self).chat_messages,
                        chat_scroll: 0,
                        ..*old(self)
                    }) && final(self).chat_messages@.drop_last() == old(self).chat_messages@
                } else {
                    *final(self) == *old(self)
                })
                &&& (key == KeyInput::Up || key == KeyInput::Down) ==> r is Nothing && *final(self) == (App {
                    chat_scroll: final(self).chat_scroll,
                    ..*old(self)
                })
                &&& (key == KeyInput::Backspace || key is Char) ==> r is Nothing && *final(self) == (App {
                    chat_input: final(self).chat_input,
                    ..*old(self)
                })
            }),
            old(self).playlist_picker is None && old(self).panel == Panel::Help && key != KeyInput::Tab ==> ({
                &&& (key == KeyInput::Esc || key == KeyInput::Char('q')) ==> *final(self) == (App {
                    panel: Panel::Search,
                    mode: Panel::Search,
                    selected_index: 0,
                    search_history_index: None,
                    search_input_stash: final(self).search_input_stash,
                    help_scroll: 0,
                    ..*old(self)
                }) && final(self).search_input_stash@.len() == 0
                &&& (key == KeyInput::Up || key == KeyInput::Char('k') || key == KeyInput::Down || key
                    == KeyInput::Char('j')) ==> *final(self) == (App { help_scroll: final(self).help_scroll, ..*old(self) })
                &&& !(key == KeyInput::Esc || key == KeyInput::Char('q') || key == KeyInput::Up || key
                    == KeyInput::Char('k') || key == KeyInput::Down || key == KeyInput::Char('j')) ==> *final(self)
                    == *old(self)
            }),
            // Search panel.
            old(self).playlist_picker is None && old(self).panel == Panel::Search ==> ({
                &&& key == KeyInput::CtrlS ==> r is Nothing && final(self).search_source
                    == (match old(self).search_source {
                    Source::YouTube => Source::SoundCloud,
                    Source::SoundCloud => Source::YTMusic,
                    Source::YTMusic => Source::YouTube,
                    _ => Source::SoundCloud,
                })
                &&& (key == KeyInput::Esc || key == KeyInput::Char('q')) ==> final(self).should_quit
                &&& key == KeyInput::Char('?') ==> final(self).panel == Panel::Help
                &&& key == KeyInput::Enter && old(self).search_input@.len() > 0 ==> r
                    == KeyEffect::StartSearch {
                    fetch_count: (old(self).search_page_size * 5) as usize,
                    source: old(self).search_source,
                } && final(self).search_input == old(self).search_input
                    && final(self).search_history_index is None
                    && (final(self).status_message matches Some(m) && m@ == "🔍 Searching..."@)
                &&& (key == KeyInput::Backspace || (key is Char && key != KeyInput::Char('q')))
                    ==> final(self).search_history_index is None
                &&& key == KeyInput::Backspace ==> final(self).search_input@ == (if old(
                    self,
                ).search_input@.len() > 0 {
                    old(self).search_input@.drop_last()
                } else {
                    old(self).search_input@
                })
                &&& key matches KeyInput::Char(c) ==> (c != 'q' && c != '?' ==> final(self).search_input@
                    == old(self).search_input@.push(c) && r is Nothing)
                // Up steps back in the search history, Down forward and then to the typed input.
                &&& key == KeyInput::Up ==> r is Nothing && (if old(self).search_history@.len() == 0 {
                    final(self).search_input == old(self).search_input && final(self).search_history_index
                        == old(self).search_history_index
                } else {
                    let next = history_up_index(old(self).search_history_index, old(self).search_history@.len());
                    final(self).search_history_index == Some(next as usize) && final(self).search_input@
                        == old(self).search_history@[next]@
                })
                &&& key == KeyInput::Down ==> r is Nothing && (match old(self).search_history_index {
                    None => final(self).search_input == old(self).search_input && final(self).search_history_index
                        is None,
                    Some(i) => if i == 0 {
                        final(self).search_history_index is None && final(self).search_input@
                            == old(self).search_input_stash@
                    } else {
                        final(self).search_history_index == Some((i - 1) as usize) && final(self).search_input@
                            == old(self).search_history@[i - 1]@
                    },
                })
            }),
            // Results panel.
            old(self).playlist_picker is None && old(self).panel == Panel::Results ==> ({
                let sel = old(self).selected_index;
                let has = sel < old(self).search_results@.len();
                &&& (key == KeyInput::Esc || key == KeyInput::Char('q')) ==> final(self).panel == Panel::Search
                &&& key == KeyInput::Enter ==> (if has { r == KeyEffect::PlayResult(sel) } else { r is Nothing })
                &&& key == KeyInput::Char('a') ==> (if has { r == KeyEffect::AddResultToQueue(sel) } else { r is Nothing })
                &&& key == KeyInput::Char('f') ==> (if has { r == KeyEffect::ToggleResultFavorite(sel) } else { r is Nothing })
                &&& key == KeyInput::Char('l') ==> (if has { r == KeyEffect::PickPlaylistForResult(sel) } else { r is Nothing })
                &&& key == KeyInput::Char('/') ==> final(self).panel == Panel::Search && final(self).search_input@.len() == 0
                &&& key == KeyInput::Right ==> r is Nothing && (if old(self).search_page + 1 < old(self).total_pages() {
                    final(self).search_page == old(self).search_page + 1 && final(self).shows_page_start()
                } else {
                    final(self).search_page == old(self).search_page
                })
                &&& key == KeyInput::Left ==> r is Nothing && (if old(self).search_page > 0 {
                    final(self).search_page == old(self).search_page - 1 && final(self).shows_page_start()
                } else {
                    final(self).search_page == old(self).search_page
                })
            }),
            // Lyrics panel: manual scrolling.
            old(self).playlist_picker is None && old(self).panel == Panel::Lyrics && key != KeyInput::Tab ==> r is Nothing && ({
                &&& (key == KeyInput::Esc || key == KeyInput::Char('q')) ==> final(self).panel == Panel::Search
                &&& key == KeyInput::ShiftUp ==> !final(self).lyrics_auto_scroll && final(self).lyrics_scroll
                    == (if old(self).lyrics_scroll > 0 { old(self).lyrics_scroll - 1 } else { 0 })
                &&& key == KeyInput::ShiftDown ==> !final(self).lyrics_auto_scroll && final(self).lyrics_scroll
                    == (if old(self).lyrics_scroll < u16::MAX { old(self).lyrics_scroll + 1 } else { u16::MAX as int })
                &&& key == KeyInput::Char('0') ==> final(self).lyrics_auto_scroll && final(self).lyrics_scroll == 0
            }),
            // Queue, Favorites and History panels.
            old(self).playlist_picker is None && old(self).panel == Panel::Queue ==> ({
                let sel = old(self).selected_index;
                let has = sel < old(self).queue_items@.len();
                &&& (key == KeyInput::Esc || key == KeyInput::Char('q')) ==> final(self).panel == Panel::Search
                &&& key == KeyInput::Enter ==> (if has { r == KeyEffect::PlayQueueEntry(sel) } else { r is Nothing })
                &&& key == KeyInput::Char('d') ==> (if has { r == KeyEffect::RemoveQueueEntry(sel) } else { r is Nothing })
                &&& key == KeyInput::Char('l') ==> (if has { r == KeyEffect::PickPlaylistForQueueEntry(sel) } else { r is Nothing })
            }),
            old(self).playlist_picker is None && old(self).panel == Panel::Favorites ==> ({
                let sel = old(self).selected_index;
                let has = sel < old(self).fav_items@.len();
                &&& (key == KeyInput::Esc || key == KeyInput::Char('q')) ==> final(self).panel == Panel::Search
                &&& key == KeyInput::Enter ==> (if has { r == KeyEffect::PlayFavorite(sel) } else { r is Nothing })
                &&& key == KeyInput::Char('d') ==> (if has { r == KeyEffect::RemoveFavorite(sel) } else { r is Nothing })
                &&& key == KeyInput::Char('l') ==> (if has { r == KeyEffect::PickPlaylistForFavorite(sel) } else { r is Nothing })
            }),
            old(self).playlist_picker is None && old(self).panel == Panel::History ==> ({
                let sel = old(self).selected_index;
                let has = sel < old(self).history_items@.len();
                &&& (key == KeyInput::Esc || key == KeyInput::Char('q')) ==> final(self).panel == Panel::Search
                &&& key == KeyInput::Enter ==> (if has { r == KeyEffect::PlayHistory(sel) } else { r is Nothing })
                &&& key == KeyInput::Char('l') ==> (if has { r == KeyEffect::PickPlaylistForHistory(sel) } else { r is Nothing })
            }),
            // Playlists panel.
            old(self).playlist_picker is None && old(self).panel == Panel::Playlists ==> ({
                let sel = old(self).selected_index;
                &&& old(self).playlist_name_input matches Some(name) ==> ({
                    &&& key == KeyInput::Esc ==> final(self).playlist_name_input is None && r is Nothing
                        && (final(self).status_message matches Some(m) && m@ == "Cancelled"@)
                    &&& key == KeyInput::Enter ==> final(self).playlist_name_input is None && (if trim(name@).len() > 0 {
                        r matches KeyEffect::CreatePlaylist(n) && n@ == trim(name@)
                    } else {
                        r is Nothing && (final(self).status_message matches Some(m) && m@
                            == "Playlist name cannot be empty"@)
                    })
                    &&& key matches KeyInput::Char(c) ==> final(self).playlist_name_input matches Some(n2) && n2@ == name@.push(c)
                    &&& key == KeyInput::Backspace ==> (final(self).playlist_name_input matches Some(n2) && n2@
                        == (if name@.len() > 0 { name@.drop_last() } else { name@ }))
                })
                &&& old(self).playlist_name_input is None ==> ({
                    &&& key == KeyInput::Enter ==> (match old(self).playlist_items_view {
                        Some(v) => if sel < v.1@.len() { r == KeyEffect::PlayPlaylistFrom(sel) } else { r is Nothing },
                        None => if sel < old(self).playlist_list@.len() { r == KeyEffect::OpenPlaylist(sel) } else { r is Nothing },
                    })
                    &&& key == KeyInput::Char('p') && old(self).playlist_items_view is None ==> (if sel < old(self).playlist_list@.len() {
                        r == KeyEffect::PlayPlaylist(sel)
                    } else {
                        r is Nothing
                    })
                    &&& key == KeyInput::Char('n') && old(self).playlist_items_view is None ==> (final(self).playlist_name_input matches Some(n) && n@.len() == 0)
                        && (final(self).status_message matches Some(m) && m@ == "Enter a name for the new playlist"@)
                    &&& key == KeyInput::Char('d') ==> (match old(self).playlist_items_view {
                        Some(v) => if sel < v.1@.len() { r == KeyEffect::RemovePlaylistItem(sel) } else { r is Nothing },
                        None => if sel < old(self).playlist_list@.len() { r == KeyEffect::DeletePlaylist(sel) } else { r is Nothing },
                    })
                    &&& (key == KeyInput::Esc || key == KeyInput::Char('q')) ==> (if old(self).playlist_items_view is Some {
                        final(self).playlist_items_view is None && r == KeyEffect::LoadPanel(Panel::Playlists)
                            && final(self).selected_index == 0
                    } else {
                        final(self).panel == Panel::Search && r is Nothing
                    })
                })
            }),
            // Chat panel.
            old(self).playlist_picker is None && old(self).panel == Panel::Chat ==> ({
                &&& key == KeyInput::Enter ==> (if trim(old(self).chat_input@).len() > 0 {
                    r is SendChat && final(self).chat_input@.len() == 0 && final(self).chat_messages@.len()
                        == old(self).chat_messages@.len() + 1 && final(self).chat_messages@.last().role@ == "user"@
                        && final(self).chat_messages@.last().content@ == trim(old(self).chat_input@)
                } else {
                    r is Nothing && final(self).chat_messages == old(self).chat_messages
                })
                &&& key == KeyInput::Up ==> final(self).chat_scroll == (if old(self).chat_scroll < u16::MAX { old(self).chat_scroll + 1 } else { u16::MAX as int })
                &&& key == KeyInput::Down ==> final(self).chat_scroll == (if old(self).chat_scroll > 0 { old(self).chat_scroll - 1 } else { 0 })
                &&& key matches KeyInput::Char(c) ==> final(self).chat_input@ == old(self).chat_input@.push(c) && r is Nothing
                &&& key == KeyInput::Backspace ==> final(self).chat_input@ == (if old(self).chat_input@.len() > 0 {
                    old(self).chat_input@.drop_last()
                } else {
                    old(self).chat_input@
                })
                &&& key == KeyInput::Esc ==> final(self).panel == Panel::Search
            }),
            // Help panel.
            old(self).playlist_picker is None && old(self).panel == Panel::Help && key != KeyInput::Tab ==> r is Nothing && ({
                &&& (key == KeyInput::Esc || key == KeyInput::Char('q')) ==> final(self).panel == Panel::Search && final(self).help_scroll == 0
                &&& (key == KeyInput::Up || key == KeyInput::Char('k')) ==> final(self).help_scroll == (if old(self).help_scroll > 0 { old(self).help_scroll - 1 } else { 0 })
                &&& (key == KeyInput::Down || key == KeyInput::Char('j')) ==> final(self).help_scroll == (if old(self).help_scroll < u16::MAX { old(self).help_scroll + 1 } else { u16::MAX as int })
            }),
    {
        // ── Playlist picker (takes priority over everything) ──────────
        if self.playlist_picker.is_some() {
            match key {
                KeyInput::Esc => {
                    self.close_playlist_picker();
                    self.set_status(lit("Cancelled"));
                    return KeyEffect::Nothing;
                },
                KeyInput::Up => {
                    self.picker_prev();
                    return KeyEffect::Nothing;
                },
                KeyInput::Down => {
                    self.picker_next();
                    return KeyEffect::Nothing;
                },
                KeyInput::Enter => {
                    let mut effect = KeyEffect::Nothing;
                    match &self.playlist_picker {
                        Some(pk) => {
                            if pk.selected < pk.playlists.len() {
                                effect = KeyEffect::AddToPlaylist(
                                    pk.video.clone(),
                                    pk.playlists[pk.selected].name.clone(),
                                );
                            }
                        },
                        None => {},
                    }
                    self.close_playlist_picker();
                    return effect;
                },
                _ => {
                    return KeyEffect::Nothing;
                },
            }
        }
        // ── Tab: next panel ───────────────────────────────────────────
        if key == KeyInput::Tab {
            let next = self.panel.next_tab();
            let effect = match next {
                Panel::Queue => KeyEffect::LoadPanel(Panel::Queue),
                Panel::Favorites => KeyEffect::LoadPanel(Panel::Favorites),
                Panel::History => KeyEffect::LoadPanel(Panel::History),
                Panel::Playlists => {
                    self.playlist_items_view = None;
                    KeyEffect::LoadPanel(Panel::Playlists)
                },
                _ => KeyEffect::Nothing,
            };
            self.set_panel(next);
            return effect;
        }
        let mut handled = false;
        let mut effect = KeyEffect::Nothing;
        match self.panel {
            Panel::Search => {
                if key == KeyInput::CtrlS {
                    self.cycle_search_source();
                    return KeyEffect::Nothing;
                }
                match key {
                    KeyInput::Esc => {
                        self.should_quit = true;
                    },
                    KeyInput::Char('q') => {
                        self.should_quit = true;
                    },
                    KeyInput::Char('?') => {
                        self.set_panel(Panel::Help);
                    },
                    KeyInput::Up => {
                        self.search_history_up();
                        handled = true;
                    },
                    KeyInput::Down => {
                        self.search_history_down();
                        handled = true;
                    },
                    KeyInput::Enter => {
                        if !self.search_input.as_str().is_empty() {
                            self.cancel_search_history_nav();
                            self.set_status(lit("🔍 Searching..."));
                            effect = KeyEffect::StartSearch {
                                fetch_count: self.search_page_size * 5,
                                source: self.search_source,
                            };
                        }
                    },
                    KeyInput::Backspace => {
                        self.cancel_search_history_nav();
                        pop_char(&mut self.search_input);
                    },
                    KeyInput::Char(c) => {
                        self.cancel_search_history_nav();
                        self.search_input.push(c);
                        handled = true;
                    },
                    _ => {},
                }
            },
            Panel::Results => {
                handled = true;
                let sel = self.selected_index;
                let has = sel < self.search_results.len();
                match key {
                    KeyInput::Esc | KeyInput::Char('q') => {
                        self.set_panel(Panel::Search);
                    },
                    KeyInput::Up | KeyInput::Char('k') => {
                        self.select_prev();
                    },
                    KeyInput::Down | KeyInput::Char('j') => {
                        self.select_next();
                    },
                    KeyInput::Enter => {
                        if has {
                            effect = KeyEffect::PlayResult(sel);
                        }
                    },
                    KeyInput::Char('a') => {
                        if has {
                            effect = KeyEffect::AddResultToQueue(sel);
                        }
                    },
                    KeyInput::Char('f') => {
                        if has {
                            effect = KeyEffect::ToggleResultFavorite(sel);
                        }
                    },
                    KeyInput::Char('l') => {
                        if has {
                            effect = KeyEffect::PickPlaylistForResult(sel);
                        }
                    },
                    KeyInput::Char('/') => {
                        self.set_panel(Panel::Search);
                        self.search_input = String::new();
                    },
                    KeyInput::Right => {
                        if self.search_page + 1 < self.search_total_pages() {
                            self.search_next_page();
                            let status = self.page_status();
                            self.set_status(status);
                        }
                    },
                    KeyInput::Left => {
                        if self.search_page > 0 {
                            self.search_prev_page();
                            let status = self.page_status();
                            self.set_status(status);
                        }
                    },
                    _ => {
                        handled = false;
                    },
                }
            },
            Panel::Lyrics => {
                match key {
                    KeyInput::Esc | KeyInput::Char('q') => {
                        self.set_panel(Panel::Search);
                    },
                    KeyInput::ShiftUp => {
                        self.lyrics_auto_scroll = false;
                        self.lyrics_scroll = sat_dec(self.lyrics_scroll);
                    },
                    KeyInput::ShiftDown => {
                        self.lyrics_auto_scroll = false;
                        self.lyrics_scroll = sat_inc(self.lyrics_scroll);
                    },
                    KeyInput::Char('0') => {
                        self.lyrics_auto_scroll = true;
                        self.lyrics_scroll = 0;
                    },
                    _ => {},
                }
                handled = true;
            },
            Panel::Queue => {
                handled = true;
                let sel = self.selected_index;
                let has = sel < self.queue_items.len();
                match key {
                    KeyInput::Esc | KeyInput::Char('q') => {
                        self.set_panel(Panel::Search);
                    },
                    KeyInput::Up | KeyInput::Char('k') => {
                        self.select_prev();
                    },
                    KeyInput::Down | KeyInput::Char('j') => {
                        self.select_next();
                    },
                    KeyInput::Enter => {
                        if has {
                            effect = KeyEffect::PlayQueueEntry(sel);
                        }
                    },
                    KeyInput::Char('d') => {
                        if has {
                            effect = KeyEffect::RemoveQueueEntry(sel);
                        }
                    },
                    KeyInput::Char('l') => {
                        if has {
                            effect = KeyEffect::PickPlaylistForQueueEntry(sel);
                        }
                    },
                    _ => {
                        handled = false;
                    },
                }
            },
            Panel::Favorites => {
                handled = true;
                let sel = self.selected_index;
                let has = sel < self.fav_items.len();
                match key {
                    KeyInput::Esc | KeyInput::Char('q') => {
                        self.set_panel(Panel::Search);
                    },
                    KeyInput::Up | KeyInput::Char('k') => {
                        self.select_prev();
                    },
                    KeyInput::Down | KeyInput::Char('j') => {
                        self.select_next();
                    },
                    KeyInput::Enter => {
                        if has {
                            effect = KeyEffect::PlayFavorite(sel);
                        }
                    },
                    KeyInput::Char('d') => {
                        if has {
                            effect = KeyEffect::RemoveFavorite(sel);
                        }
                    },
                    KeyInput::Char('l') => {
                        if has {
                            effect = KeyEffect::PickPlaylistForFavorite(sel);
                        }
                    },
                    _ => {
                        handled = false;
                    },
                }
            },
            Panel::History => {
                handled = true;
                let sel = self.selected_index;
                let has = sel < self.history_items.len();
                match key {
                    KeyInput::Esc | KeyInput::Char('q') => {
                        self.set_panel(Panel::Search);
                    },
                    KeyInput::Up | KeyInput::Char('k') => {
                        self.select_prev();
                    },
                    KeyInput::Down | KeyInput::Char('j') => {
                        self.select_next();
                    },
                    KeyInput::Enter => {
                        if has {
                            effect = KeyEffect::PlayHistory(sel);
                        }
                    },
                    KeyInput::Char('l') => {
                        if has {
                            effect = KeyEffect::PickPlaylistForHistory(sel);
                        }
                    },
                    _ => {
                        handled = false;
                    },
                }
            },
            Panel::Playlists => {
                handled = true;
                let sel = self.selected_index;
                if self.playlist_name_input.is_some() {
                    match key {
                        KeyInput::Esc => {
                            self.playlist_name_input = None;
                            self.set_status(lit("Cancelled"));
                        },
                        KeyInput::Enter => {
                            let name = match &self.playlist_name_input {
                                Some(n) => trim_chars(&chars_of(n.as_str())),
                                None => Vec::new(),
                            };
                            self.playlist_name_input = None;
                            if name.len() > 0 {
                                effect = KeyEffect::CreatePlaylist(string_of(&name));
                            } else {
                                self.set_status(lit("Playlist name cannot be empty"));
                            }
                        },
                        KeyInput::Backspace => {
                            match self.playlist_name_input.take() {
                                Some(mut n) => {
                                    pop_char(&mut n);
                                    self.playlist_name_input = Some(n);
                                },
                                None => {},
                            }
                        },
                        KeyInput::Char(c) => {
                            match self.playlist_name_input.take() {
                                Some(mut n) => {
                                    n.push(c);
                                    self.playlist_name_input = Some(n);
                                },
                                None => {},
                            }
                        },
                        _ => {},
                    }
                } else {
                    let in_view = self.playlist_items_view.is_some();
                    let view_len = match &self.playlist_items_view {
                        Some(v) => v.1.len(),
                        None => 0,
                    };
                    let list_len = self.playlist_list.len();
                    match key {
                        KeyInput::Esc | KeyInput::Char('q') => {
                            if in_view {
                                self.playlist_items_view = None;
                                self.selected_index = 0;
                                effect = KeyEffect::LoadPanel(Panel::Playlists);
                            } else {
                                self.set_panel(Panel::Search);
                            }
                        },
                        KeyInput::Up | KeyInput::Char('k') => {
                            self.select_prev();
                        },
                        KeyInput::Down | KeyInput::Char('j') => {
                            self.select_next();
                        },
                        KeyInput::Enter => {
                            if in_view {
                                if sel < view_len {
                                    effect = KeyEffect::PlayPlaylistFrom(sel);
                                }
                            } else if sel < list_len {
                                effect = KeyEffect::OpenPlaylist(sel);
                            }
                        },
                        KeyInput::Char('p') => {
                            if in_view {
                                handled = false;
                            } else if sel < list_len {
                                effect = KeyEffect::PlayPlaylist(sel);
                            }
                        },
                        KeyInput::Char('n') => {
                            if in_view {
                                handled = false;
                            } else {
                                self.playlist_name_input = Some(String::new());
                                self.set_status(lit("Enter a name for the new playlist"));
                            }
                        },
                        KeyInput::Char('d') => {
                            if in_view {
                                if sel < view_len {
                                    effect = KeyEffect::RemovePlaylistItem(sel);
                                }
                            } else if sel < list_len {
                                effect = KeyEffect::DeletePlaylist(sel);
                            }
                        },
                        _ => {
                            handled = false;
                        },
                    }
                }
            },
            Panel::Chat => {
                match key {
                    KeyInput::Esc => {
                        self.set_panel(Panel::Search);
                    },
                    KeyInput::Enter => {
                        let input = trim_chars(&chars_of(self.chat_input.as_str()));
                        if input.len() > 0 {
                            self.chat_input = String::new();
                            let text = string_of(&input);
                            self.push_chat_message("user", text.as_str());
                            effect = KeyEffect::SendChat;
                        }
                        handled = true;
                    },
                    KeyInput::Up => {
                        self.chat_scroll = sat_inc(self.chat_scroll);
                        handled = true;
                    },
                    KeyInput::Down => {
                        self.chat_scroll = sat_dec(self.chat_scroll);
                        handled = true;
                    },
                    KeyInput::Backspace => {
                        pop_char(&mut self.chat_input);
                    },
                    KeyInput::Char(c) => {
                        self.chat_input.push(c);
                        handled = true;
                    },
                    _ => {},
                }
            },
            Panel::Help => {
                handled = true;
                match key {
                    KeyInput::Esc | KeyInput::Char('q') => {
                        self.help_scroll = 0;
                        self.set_panel(Panel::Search);
                    },
                    KeyInput::Up | KeyInput::Char('k') => {
                        self.help_scroll = sat_dec(self.help_scroll);
                    },
                    KeyInput::Down | KeyInput::Char('j') => {
                        self.help_scroll = sat_inc(self.help_scroll);
                    },
                    _ => {},
                }
            },
        }
        if !handled {
            if key == KeyInput::Char('c') {
                self.set_panel(Panel::Chat);
                return KeyEffect::Nothing;
            }
            if playing {
                match player_key_exec(key, self.panel) {
                    Some(pk) => {
                        return KeyEffect::Player(pk);
                    },
                    None => {},
                }
            }
        }
        effect
    }
}

/// In every panel `+` and `=` raise the volume, `-` lowers it, `]` and
/// `[` step the speed up and down, and the shifted arrows seek a minute
/// back and forward.
pub proof fn lemma_control_keys(panel: Panel)
    ensures
        player_key(KeyInput::Char('+'), panel) == Some(PlayerKey::VolumeUp),
        player_key(KeyInput::Char('='), panel) == Some(PlayerKey::VolumeUp),
        player_key(KeyInput::Char('-'), panel) == Some(PlayerKey::VolumeDown),
        player_key(KeyInput::Char(']'), panel) == Some(PlayerKey::SpeedUp),
        player_key(KeyInput::Char('['), panel) == Some(PlayerKey::SpeedDown),
        player_key(KeyInput::ShiftLeft, panel) == Some(PlayerKey::Seek(-60i32)),
        player_key(KeyInput::ShiftRight, panel) == Some(PlayerKey::Seek(60i32)),
{
}

} // verus!
