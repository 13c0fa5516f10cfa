use aux::commands::search::{
    count_pages, page_range, result_row, search_page_size, search_source, turn_page, PageInfo, SelectAction, Selector,
};
use aux::media::source::Source;
use aux::media::types::MediaInfo;
use aux::tui::keys::KeyInput;

#[test]
fn selector_moves_and_chooses() {
    assert_eq!(Selector::start(0, PageInfo { current: 0, total: 1 }), None);
    let mut s = Selector::start(3, PageInfo { current: 0, total: 2 }).unwrap();
    assert!(!s.has_prev);
    assert!(s.has_next);
    assert_eq!(s.handle_key(KeyInput::Up), None);
    assert_eq!(s.selected, 0);
    s.handle_key(KeyInput::Down);
    s.handle_key(KeyInput::Down);
    s.handle_key(KeyInput::Down);
    assert_eq!(s.selected, 2);
    assert_eq!(s.handle_key(KeyInput::Left), None);
    assert_eq!(s.handle_key(KeyInput::Right), Some(SelectAction::NextPage));
    assert_eq!(s.handle_key(KeyInput::Enter), Some(SelectAction::Selected(2)));
    assert_eq!(s.handle_key(KeyInput::Char('q')), Some(SelectAction::Cancelled));
    assert_eq!(s.handle_key(KeyInput::CtrlC), Some(SelectAction::Cancelled));
}

#[test]
fn selector_window_and_footer() {
    let mut s = Selector::start(30, PageInfo { current: 1, total: 3 }).unwrap();
    assert_eq!(s.window(16), (0, 10));
    for _ in 0..12 {
        s.handle_key(KeyInput::Down);
    }
    assert_eq!(s.window(16), (3, 10));
    assert_eq!(s.window(3), (12, 1));
    assert_eq!(
        s.footer(10),
        "  [↑↓] navigate   [Enter] select   [←] prev page   [→] next page   [Esc/q] cancel  (13/30)"
    );
    let small = Selector::start(2, PageInfo { current: 0, total: 1 }).unwrap();
    assert_eq!(small.footer(2), "  [↑↓] navigate   [Enter] select   [Esc/q] cancel");
}

#[test]
fn paging() {
    assert_eq!(page_range(0, 5, 12), (0, 5));
    assert_eq!(page_range(2, 5, 12), (10, 12));
    assert_eq!(turn_page(SelectAction::NextPage, PageInfo { current: 0, total: 3 }), 1);
    assert_eq!(turn_page(SelectAction::NextPage, PageInfo { current: 2, total: 3 }), 2);
    assert_eq!(turn_page(SelectAction::PrevPage, PageInfo { current: 0, total: 3 }), 0);
    assert_eq!(turn_page(SelectAction::PrevPage, PageInfo { current: 2, total: 3 }), 1);
    assert_eq!(search_page_size(0, 5), 5);
    assert_eq!(search_page_size(8, 5), 8);
}

#[test]
fn sources_for_search() {
    assert_eq!(search_source("sc", "youtube"), Source::SoundCloud);
    assert_eq!(search_source("nope", "YTM"), Source::YTMusic);
    assert_eq!(search_source("nope", "nope"), Source::YouTube);
}

#[test]
fn result_rows() {
    let mut v = MediaInfo {
        id: "a".into(),
        title: "Song".into(),
        channel: Some("Band".into()),
        duration: Some(125),
        view_count: None,
        thumbnail: None,
        url: "u".into(),
        description: None,
        source: Source::YouTube,
        extractor_key: None,
    };
    assert_eq!(result_row(3, false, false, &v), "3. Song · Band · 2:05");
    assert_eq!(result_row(1, true, true, &v), "1. ❤️ 📋Song · Band · 2:05");
    v.channel = None;
    v.duration = None;
    assert_eq!(result_row(7, false, true, &v), "7. 📋Song · Unknown · LIVE");
}

#[test]
fn pages_round_up() {
    assert_eq!(count_pages(0, 5), 0);
    assert_eq!(count_pages(5, 5), 1);
    assert_eq!(count_pages(12, 5), 3);
    assert_eq!(count_pages(1, 1), 1);
}
