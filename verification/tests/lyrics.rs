use aux::ai::transcript::{Transcript, TranscriptSegment};
use aux::tui::app::Panel;
use aux::tui::hints::{panel_key_hints, playback_key_hints};
use aux::tui::lyrics::{lyrics_panel, subtitle_at, LineState, LyricsPanel};

fn seg(start: u64, end: u64, text: &str) -> TranscriptSegment {
    TranscriptSegment { start, end, text: text.into() }
}

fn song() -> Transcript {
    Transcript {
        language: "en".into(),
        segments: vec![seg(0, 4500, "one"), seg(4500, 9000, "two"), seg(65000, 70000, "three")],
    }
}

#[test]
fn no_transcript_is_empty() {
    assert!(matches!(lyrics_panel(&None, 0, true, 0, 20), LyricsPanel::Empty));
    let t = Transcript { language: "en".into(), segments: vec![] };
    assert!(matches!(lyrics_panel(&Some(t), 0, true, 0, 20), LyricsPanel::Empty));
}

#[test]
fn description_shows_as_text() {
    let t = Transcript { language: "description".into(), segments: vec![seg(0, 1, "about")] };
    match lyrics_panel(&Some(t), 0, true, 0, 20) {
        LyricsPanel::Description(text) => assert_eq!(text, "about"),
        _ => panic!("expected the description"),
    }
}

#[test]
fn lines_follow_position() {
    match lyrics_panel(&Some(song()), 4, true, 0, 20) {
        LyricsPanel::Synced(v) => {
            assert_eq!(v.lines.len(), 3);
            // Segment one ends at 4.5 s, rounded up to 5: still current at 4 s,
            // and so is segment two, which starts at 4 s.
            assert_eq!(v.lines[0].state, LineState::Current);
            assert_eq!(v.lines[1].state, LineState::Current);
            assert_eq!(v.lines[2].state, LineState::Upcoming);
            assert_eq!(v.lines[2].stamp, "  [01:05] ");
            assert_eq!(v.lines[0].stamp, "  [00:00] ");
            assert_eq!(v.lines[1].text, "two");
            assert_eq!(v.scroll, 0);
            assert_eq!(v.title, " Lyrics 🎵 (3 segments) · auto ");
        }
        _ => panic!("expected synced lines"),
    }
    match lyrics_panel(&Some(song()), 100, false, 7, 20) {
        LyricsPanel::Synced(v) => {
            assert!(v.lines.iter().all(|l| l.state == LineState::Past));
            assert_eq!(v.scroll, 7);
            assert_eq!(v.title, " Lyrics 🎵 (3 segments) · manual ");
        }
        _ => panic!("expected synced lines"),
    }
}

#[test]
fn auto_scroll_centres_current_line() {
    let segments: Vec<TranscriptSegment> = (0..40).map(|i| seg(i * 1000, i * 1000 + 1000, "x")).collect();
    let t = Transcript { language: "en".into(), segments };
    // Height 12 leaves 10 rows: the current line (30) sits 5 rows down.
    match lyrics_panel(&Some(t), 30, true, 0, 12) {
        LyricsPanel::Synced(v) => assert_eq!(v.scroll, 25),
        _ => panic!("expected synced lines"),
    }
}

#[test]
fn subtitle_line() {
    let t = song();
    assert_eq!(subtitle_at(&t.segments, 4499), "one");
    assert_eq!(subtitle_at(&t.segments, 4500), "two");
    assert_eq!(subtitle_at(&t.segments, 20000), "");
}

#[test]
fn key_hints_by_panel() {
    let h = panel_key_hints(Panel::Search, false);
    assert_eq!(h, vec![("Enter", "search"), ("Tab", "panels"), ("?", "help"), ("q", "quit")]);
    let h = panel_key_hints(Panel::Playlists, true);
    assert_eq!(h[0], ("Enter", "play"));
    let h = panel_key_hints(Panel::Playlists, false);
    assert_eq!(h[0], ("Enter", "view"));
    assert_eq!(panel_key_hints(Panel::Help, false).len(), 2);
    let p = playback_key_hints();
    assert_eq!(p.len(), 9);
    assert_eq!(p[8], ("S", "stop"));
}
