use aux::commands::stats::listening_stats;
use aux::library::history::HistoryEntry;
use aux::library::playback_position::resume_position;
use aux::library::playlist::PlaylistItem;
use aux::library::queue::append_position;
use aux::library::search_history::history_query;

fn entry(channel: Option<&str>, secs: i64) -> HistoryEntry {
    HistoryEntry {
        video_id: "v".into(),
        title: "t".into(),
        channel: channel.map(|c| c.to_string()),
        url: "u".into(),
        duration_secs: None,
        listened_secs: secs,
        played_at: "2024-01-01 00:00:00".into(),
        source: "youtube".into(),
    }
}

#[test]
fn resume_thresholds() {
    assert_eq!(resume_position(100, None), Some(100));
    assert_eq!(resume_position(100, Some(0)), Some(100));
    assert_eq!(resume_position(100, Some(300)), Some(100));
    assert_eq!(resume_position(270, Some(300)), None);
    assert_eq!(resume_position(50, Some(70)), None);
    assert_eq!(resume_position(400, Some(300)), None);
}

#[test]
fn queue_positions() {
    assert_eq!(append_position(0, 0), Some(1));
    assert_eq!(append_position(0, 7), Some(8));
    assert_eq!(append_position(1, 7), None);
}

#[test]
fn search_queries_are_trimmed() {
    assert_eq!(history_query("  lofi hip hop "), Some("lofi hip hop".to_string()));
    assert_eq!(history_query("   "), None);
    assert_eq!(history_query(""), None);
}

#[test]
fn playlist_item_to_video() {
    let item = PlaylistItem {
        id: 1,
        video_id: "a".into(),
        title: "A".into(),
        channel: Some("C".into()),
        url: "u".into(),
        duration_secs: Some(180),
        position: 1,
    };
    let v = item.to_video();
    assert_eq!(v.id, "a");
    assert_eq!(v.duration, Some(180));
    assert_eq!(v.channel.as_deref(), Some("C"));
}

#[test]
fn stats_aggregate_channels() {
    let entries = vec![
        entry(Some("A"), 60),
        entry(Some("B"), 600),
        entry(None, 30),
        entry(Some("A"), -5),
        entry(Some("A"), 100),
    ];
    let s = listening_stats(&entries);
    assert_eq!(s.total_listened, 790);
    assert_eq!(s.total_tracks, 5);
    assert_eq!(s.unique_channels, 2);
    assert_eq!(s.top_channels, vec![("B".to_string(), 600), ("A".to_string(), 160)]);
    let empty = listening_stats(&vec![]);
    assert_eq!(empty.total_listened, 0);
    assert!(empty.top_channels.is_empty());
}
