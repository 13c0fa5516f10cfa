use aux::cli::{OutputFormat, RepeatArg};
use aux::config::{default_ai_model, default_volume, Config};
use aux::equalizer::{eq_preset_filter, eq_preset_names};
use aux::library::playlist::Playlist;
use aux::media::source::Source;
use aux::media::types::MediaInfo;
use aux::player::types::RepeatMode;
use aux::tui::app::{App, Panel};

fn media(id: &str) -> MediaInfo {
    MediaInfo {
        id: id.to_string(),
        title: format!("T{}", id),
        channel: None,
        duration: None,
        view_count: None,
        thumbnail: None,
        url: "u".into(),
        description: None,
        source: Source::YouTube,
        extractor_key: None,
    }
}

fn playlist(name: &str) -> Playlist {
    Playlist { id: 1, name: name.into(), created_at: "now".into(), item_count: 0 }
}

#[test]
fn tab_cycles_all_panels() {
    let mut p = Panel::Search;
    let mut seen = vec![];
    for _ in 0..9 {
        p = p.next_tab();
        seen.push(p);
    }
    assert_eq!(p, Panel::Search);
    assert_eq!(seen[0], Panel::Results);
    assert_eq!(seen[7], Panel::Help);
}

#[test]
fn search_history_navigation() {
    let mut app = App::new();
    app.search_history_up();
    assert_eq!(app.search_history_index, None);
    app.search_history = vec!["new".into(), "old".into()];
    app.search_input = "typing".into();
    app.search_history_up();
    assert_eq!(app.search_input, "new");
    assert_eq!(app.search_input_stash, "typing");
    app.search_history_up();
    app.search_history_up();
    assert_eq!(app.search_input, "old");
    assert_eq!(app.search_history_index, Some(1));
    app.search_history_down();
    assert_eq!(app.search_input, "new");
    app.search_history_down();
    assert_eq!(app.search_input, "typing");
    assert_eq!(app.search_history_index, None);
}

#[test]
fn paging_through_results() {
    let mut app = App::new();
    assert_eq!(app.search_total_pages(), 1);
    app.set_search_results((0..25).map(|i| media(&i.to_string())).collect());
    assert_eq!(app.search_total_pages(), 3);
    assert_eq!(app.search_results.len(), 10);
    app.search_next_page();
    app.search_next_page();
    assert_eq!(app.search_page, 2);
    assert_eq!(app.search_results.len(), 5);
    assert_eq!(app.search_results[0].id, "20");
    app.search_next_page();
    assert_eq!(app.search_page, 2);
    app.search_prev_page();
    assert_eq!(app.search_page, 1);
    assert_eq!(app.search_global_index(3), 13);
}

#[test]
fn selection_and_panels() {
    let mut app = App::new();
    app.set_search_results(vec![media("a"), media("b")]);
    app.set_panel(Panel::Results);
    app.select_next();
    app.select_next();
    assert_eq!(app.selected_index, 1);
    app.select_prev();
    app.select_prev();
    assert_eq!(app.selected_index, 0);
    app.set_panel(Panel::Help);
    app.select_next();
    assert_eq!(app.selected_index, 0);
    assert_eq!(app.mode, Panel::Help);
}

#[test]
fn picker_and_source_cycling() {
    let mut app = App::new();
    app.open_playlist_picker(media("a"), vec![playlist("x"), playlist("y")]);
    app.picker_next();
    app.picker_next();
    assert_eq!(app.playlist_picker.as_ref().unwrap().selected, 1);
    app.picker_prev();
    assert_eq!(app.playlist_picker.as_ref().unwrap().selected, 0);
    app.close_playlist_picker();
    assert!(app.playlist_picker.is_none());
    app.cycle_search_source();
    assert_eq!(app.search_source, Source::SoundCloud);
    assert_eq!(app.status_message.as_deref(), Some("Search source: SoundCloud"));
    app.cycle_search_source();
    app.cycle_search_source();
    assert_eq!(app.search_source, Source::YouTube);
    app.search_source = Source::Bandcamp;
    app.cycle_search_source();
    assert_eq!(app.search_source, Source::SoundCloud);
}

#[test]
fn chat_messages_scroll_to_bottom() {
    let mut app = App::new();
    app.chat_scroll = 4;
    app.push_chat_message("user", "hi");
    assert_eq!(app.chat_scroll, 0);
    assert_eq!(app.chat_messages[0].content, "hi");
}

#[test]
fn config_defaults() {
    let c = Config::default();
    assert_eq!(c.player.backend, "mpv");
    assert_eq!(c.player.default_volume, 80);
    assert_eq!(c.player.search_results, 5);
    assert_eq!(c.youtube.backend, "yt-dlp");
    assert_eq!(c.youtube.prefer_format, "m4a");
    assert!(c.ai.is_none());
    assert_eq!(default_ai_model(), "gpt-4o-mini");
    assert_eq!(default_volume(), 80);
}

#[test]
fn equalizer_presets() {
    assert_eq!(eq_preset_filter("flat"), Some(""));
    assert_eq!(eq_preset_filter("vocal"), Some("superequalizer=6b=3:7b=4:8b=3:9b=2"));
    assert_eq!(eq_preset_filter("jazz"), None);
    for name in eq_preset_names() {
        assert!(eq_preset_filter(name).is_some());
    }
}

#[test]
fn cli_arguments() {
    assert_eq!(RepeatArg::One.to_repeat_mode(), RepeatMode::One);
    assert_eq!(OutputFormat::Oneline.as_str(), "oneline");
}
