use aux::media::source::Source;
use aux::media::types::MediaInfo;
use aux::tui::app::{App, Panel};
use aux::tui::keys::{KeyEffect, KeyInput, PlayerKey};

fn media(id: &str) -> MediaInfo {
    MediaInfo {
        id: id.to_string(),
        title: format!("T{}", id),
        channel: None,
        duration: None,
        view_count: None,
        thumbnail: None,
        url: "u".into(),
        description: None,
        source: Source::YouTube,
        extractor_key: None,
    }
}

#[test]
fn typing_and_searching() {
    let mut app = App::new();
    for c in "lofi".chars() {
        assert!(matches!(app.handle_key(KeyInput::Char(c), false), KeyEffect::Nothing));
    }
    assert_eq!(app.search_input, "lofi");
    app.handle_key(KeyInput::Backspace, false);
    assert_eq!(app.search_input, "lof");
    match app.handle_key(KeyInput::Enter, true) {
        KeyEffect::StartSearch { fetch_count, source } => {
            assert_eq!(fetch_count, 50);
            assert_eq!(source, Source::YouTube);
        }
        _ => panic!("expected a search"),
    }
    assert_eq!(app.status_message.as_deref(), Some("🔍 Searching..."));
}

#[test]
fn empty_search_does_nothing() {
    let mut app = App::new();
    assert!(matches!(app.handle_key(KeyInput::Enter, false), KeyEffect::Nothing));
}

#[test]
fn typing_in_search_does_not_reach_player() {
    let mut app = App::new();
    assert!(matches!(app.handle_key(KeyInput::Char('n'), true), KeyEffect::Nothing));
    assert_eq!(app.search_input, "n");
}

#[test]
fn quit_and_help_from_search() {
    let mut app = App::new();
    app.handle_key(KeyInput::Char('?'), false);
    assert_eq!(app.panel, Panel::Help);
    app.handle_key(KeyInput::Esc, false);
    assert_eq!(app.panel, Panel::Search);
    app.handle_key(KeyInput::Char('q'), false);
    assert!(app.should_quit);
}

#[test]
fn ctrl_s_cycles_source() {
    let mut app = App::new();
    app.handle_key(KeyInput::CtrlS, false);
    assert_eq!(app.search_source, Source::SoundCloud);
    assert_eq!(app.status_message.as_deref(), Some("Search source: SoundCloud"));
}

#[test]
fn tab_loads_panels() {
    let mut app = App::new();
    assert!(matches!(app.handle_key(KeyInput::Tab, false), KeyEffect::Nothing));
    assert_eq!(app.panel, Panel::Results);
    app.handle_key(KeyInput::Tab, false);
    assert_eq!(app.panel, Panel::Lyrics);
    assert!(matches!(app.handle_key(KeyInput::Tab, false), KeyEffect::LoadPanel(Panel::Queue)));
    assert_eq!(app.panel, Panel::Queue);
}

#[test]
fn results_panel_actions() {
    let mut app = App::new();
    app.set_search_results(vec![media("a"), media("b")]);
    app.set_panel(Panel::Results);
    app.handle_key(KeyInput::Down, false);
    assert_eq!(app.selected_index, 1);
    assert!(matches!(app.handle_key(KeyInput::Enter, false), KeyEffect::PlayResult(1)));
    assert!(matches!(app.handle_key(KeyInput::Char('a'), false), KeyEffect::AddResultToQueue(1)));
    assert!(matches!(app.handle_key(KeyInput::Char('f'), false), KeyEffect::ToggleResultFavorite(1)));
    assert!(matches!(app.handle_key(KeyInput::Char('l'), false), KeyEffect::PickPlaylistForResult(1)));
    // 'n' is not used by the panel: it reaches the player while playing.
    assert!(matches!(app.handle_key(KeyInput::Char('n'), true), KeyEffect::Player(PlayerKey::Next)));
    assert!(matches!(app.handle_key(KeyInput::Char('n'), false), KeyEffect::Nothing));
    // Left/Right page the results here instead of seeking.
    assert!(matches!(app.handle_key(KeyInput::Right, true), KeyEffect::Nothing));
    app.handle_key(KeyInput::Char('/'), false);
    assert_eq!(app.panel, Panel::Search);
    assert_eq!(app.search_input, "");
}

#[test]
fn result_pages_turn_with_status() {
    let mut app = App::new();
    let results: Vec<MediaInfo> = (0..25).map(|i| media(&i.to_string())).collect();
    app.set_search_results(results);
    app.set_panel(Panel::Results);
    app.handle_key(KeyInput::Right, false);
    assert_eq!(app.search_page, 1);
    assert_eq!(app.status_message.as_deref(), Some("Page 2/3"));
    app.handle_key(KeyInput::Right, false);
    app.handle_key(KeyInput::Right, false);
    assert_eq!(app.search_page, 2);
    app.handle_key(KeyInput::Left, false);
    assert_eq!(app.search_page, 1);
}

#[test]
fn player_keys_from_lyrics_are_swallowed() {
    let mut app = App::new();
    app.set_panel(Panel::Lyrics);
    assert!(matches!(app.handle_key(KeyInput::Char(' '), true), KeyEffect::Nothing));
    app.handle_key(KeyInput::ShiftDown, false);
    assert_eq!(app.lyrics_scroll, 1);
    assert!(!app.lyrics_auto_scroll);
    app.handle_key(KeyInput::Char('0'), false);
    assert!(app.lyrics_auto_scroll);
    assert_eq!(app.lyrics_scroll, 0);
}

#[test]
fn seek_keys_depend_on_panel() {
    let mut app = App::new();
    app.set_panel(Panel::Favorites);
    assert!(matches!(app.handle_key(KeyInput::Left, true), KeyEffect::Player(PlayerKey::Seek(-10))));
    assert!(matches!(app.handle_key(KeyInput::ShiftRight, true), KeyEffect::Player(PlayerKey::Seek(60))));
    app.set_panel(Panel::History);
    assert!(matches!(app.handle_key(KeyInput::Left, true), KeyEffect::Nothing));
}

#[test]
fn chat_panel_sends_trimmed_message() {
    let mut app = App::new();
    app.set_panel(Panel::Chat);
    for c in "  hi  ".chars() {
        app.handle_key(KeyInput::Char(c), false);
    }
    assert!(matches!(app.handle_key(KeyInput::Enter, false), KeyEffect::SendChat));
    assert_eq!(app.chat_input, "");
    assert_eq!(app.chat_messages.len(), 1);
    assert_eq!(app.chat_messages[0].role, "user");
    assert_eq!(app.chat_messages[0].content, "hi");
    app.handle_key(KeyInput::Up, false);
    assert_eq!(app.chat_scroll, 1);
    app.handle_key(KeyInput::Char(' '), false);
    assert!(matches!(app.handle_key(KeyInput::Enter, false), KeyEffect::Nothing));
    assert_eq!(app.chat_messages.len(), 1);
}

#[test]
fn playlist_name_entry() {
    let mut app = App::new();
    app.set_panel(Panel::Playlists);
    app.handle_key(KeyInput::Char('n'), false);
    assert_eq!(app.playlist_name_input.as_deref(), Some(""));
    for c in " Chill ".chars() {
        app.handle_key(KeyInput::Char(c), false);
    }
    match app.handle_key(KeyInput::Enter, false) {
        KeyEffect::CreatePlaylist(name) => assert_eq!(name, "Chill"),
        _ => panic!("expected a new playlist"),
    }
    assert!(app.playlist_name_input.is_none());
    app.handle_key(KeyInput::Char('n'), false);
    app.handle_key(KeyInput::Char(' '), false);
    assert!(matches!(app.handle_key(KeyInput::Enter, false), KeyEffect::Nothing));
    assert_eq!(app.status_message.as_deref(), Some("Playlist name cannot be empty"));
}

#[test]
fn picker_takes_every_key() {
    let mut app = App::new();
    let pls = vec![
        aux::library::playlist::Playlist { id: 1, name: "a".into(), created_at: "x".into(), item_count: 0 },
        aux::library::playlist::Playlist { id: 2, name: "b".into(), created_at: "x".into(), item_count: 0 },
    ];
    app.open_playlist_picker(media("v"), pls);
    assert!(matches!(app.handle_key(KeyInput::Tab, true), KeyEffect::Nothing));
    assert_eq!(app.panel, Panel::Search);
    app.handle_key(KeyInput::Down, false);
    match app.handle_key(KeyInput::Enter, false) {
        KeyEffect::AddToPlaylist(v, name) => {
            assert_eq!(v.id, "v");
            assert_eq!(name, "b");
        }
        _ => panic!("expected an add"),
    }
    assert!(app.playlist_picker.is_none());
}

#[test]
fn picker_escape_cancels() {
    let mut app = App::new();
    app.open_playlist_picker(media("v"), vec![]);
    assert!(matches!(app.handle_key(KeyInput::Esc, false), KeyEffect::Nothing));
    assert!(app.playlist_picker.is_none());
    assert_eq!(app.status_message.as_deref(), Some("Cancelled"));
}

#[test]
fn arrows_recall_searches_and_move_selection() {
    let mut app = App::new();
    app.search_history = vec!["newest".into(), "older".into()];
    app.search_input = "typed".into();
    assert!(matches!(app.handle_key(KeyInput::Up, true), KeyEffect::Nothing));
    assert_eq!(app.search_input, "newest");
    app.handle_key(KeyInput::Up, false);
    app.handle_key(KeyInput::Up, false);
    assert_eq!(app.search_input, "older");
    assert_eq!(app.search_history_index, Some(1));
    app.handle_key(KeyInput::Down, false);
    app.handle_key(KeyInput::Down, false);
    assert_eq!(app.search_input, "typed");
    assert_eq!(app.search_history_index, None);

    app.panel = Panel::Queue;
    app.queue_items = Vec::new();
    app.handle_key(KeyInput::Char('j'), false);
    assert_eq!(app.selected_index, 0);
    app.handle_key(KeyInput::Char('k'), false);
    assert_eq!(app.selected_index, 0);
}

#[test]
fn c_opens_the_chat_panel() {
    let mut app = App::new();
    app.set_panel(Panel::Queue);
    assert!(matches!(app.handle_key(KeyInput::Char('c'), true), KeyEffect::Nothing));
    assert_eq!(app.panel, Panel::Chat);
    app.set_panel(Panel::Results);
    assert!(matches!(app.handle_key(KeyInput::Char('c'), false), KeyEffect::Nothing));
    assert_eq!(app.panel, Panel::Chat);
    app.set_panel(Panel::Search);
    app.handle_key(KeyInput::Char('c'), true);
    assert_eq!(app.panel, Panel::Search);
    assert_eq!(app.search_input, "c");
}
