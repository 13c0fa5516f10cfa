use aux::media::source::Source;
use aux::media::types::{format_duration, MediaInfo};
use aux::youtube::types::{format_duration as yt_format_duration, VideoInfo};
use aux::youtube::ytdlp::YtDlp;

fn media(id: &str) -> MediaInfo {
    MediaInfo {
        id: id.to_string(),
        title: "Song".to_string(),
        channel: Some("Band".to_string()),
        duration: Some(185),
        view_count: None,
        thumbnail: None,
        url: format!("https://youtube.com/watch?v={}", id),
        description: None,
        source: Source::default(),
        extractor_key: Some("SoundCloud".to_string()),
    }
}

#[test]
fn durations_format_like_clock() {
    assert_eq!(format_duration(0), "0:00");
    assert_eq!(format_duration(65), "1:05");
    assert_eq!(format_duration(600), "10:00");
    assert_eq!(format_duration(3600), "1:00:00");
    assert_eq!(format_duration(3750), "1:02:30");
    assert_eq!(yt_format_duration(3750), "1:02:30");
    assert_eq!(yt_format_duration(59), "0:59");
}

#[test]
fn source_db_roundtrip() {
    for s in [Source::YouTube, Source::SoundCloud, Source::YTMusic, Source::Bandcamp, Source::Generic] {
        assert_eq!(Source::from_db_str(s.as_db_str()), s);
    }
    assert_eq!(Source::from_db_str("YouTube"), Source::Generic);
}

#[test]
fn source_from_extractor_key() {
    assert_eq!(Source::from_extractor_key("Youtube"), Source::YouTube);
    assert_eq!(Source::from_extractor_key("SoundcloudPlaylist"), Source::SoundCloud);
    assert_eq!(Source::from_extractor_key("BandcampAlbum"), Source::Bandcamp);
    assert_eq!(Source::from_extractor_key("YoutubeMusicSearchURL"), Source::YTMusic);
    assert_eq!(Source::from_extractor_key("Vimeo"), Source::Generic);
}

#[test]
fn source_from_cli_argument() {
    assert_eq!(Source::from_str_arg("YT"), Some(Source::YouTube));
    assert_eq!(Source::from_str_arg("sc"), Some(Source::SoundCloud));
    assert_eq!(Source::from_str_arg("ytm"), Some(Source::YTMusic));
    assert_eq!(Source::from_str_arg("bandcamp"), Some(Source::Bandcamp));
    assert_eq!(Source::from_str_arg("vimeo"), None);
}

#[test]
fn source_labels() {
    assert_eq!(Source::YouTube.search_prefix(), Some("ytsearch"));
    assert_eq!(Source::YTMusic.search_prefix(), Some("ytmusicsearch"));
    assert_eq!(Source::Bandcamp.search_prefix(), None);
    assert_eq!(Source::searchable(), vec![Source::YouTube, Source::SoundCloud, Source::YTMusic]);
    assert_eq!(Source::YTMusic.display_name(), "YT Music");
    assert_eq!(Source::Generic.display_name(), "Other");
    assert_eq!(Source::SoundCloud.icon(), "☁");
    assert_eq!(Source::default(), Source::YouTube);
}

#[test]
fn media_resolves_source_and_displays() {
    let mut m = media("abc");
    assert_eq!(m.display_line(), "▶ Song — Band [3:05]");
    m.resolve_source();
    assert_eq!(m.source, Source::SoundCloud);
    m.channel = None;
    m.duration = None;
    assert_eq!(m.display_line(), "☁ Song — Unknown [LIVE]");
    let c = m.clone();
    assert_eq!(c.id, "abc");
}

#[test]
fn video_displays() {
    let v = VideoInfo {
        id: "x".into(),
        title: "Talk".into(),
        channel: None,
        duration: Some(3661),
        view_count: None,
        thumbnail: None,
        url: "u".into(),
    };
    assert_eq!(v.display_line(), "Talk — Unknown [1:01:01]");
}

#[test]
fn ytdlp_search_and_stream() {
    let _ = YtDlp::new();
    assert_eq!(YtDlp::search_query(25, "lofi beats"), "ytsearch25:lofi beats");
    let s = YtDlp::stream_from_output("  https://cdn/audio  \n").unwrap();
    assert_eq!(s.audio_url, "https://cdn/audio");
    assert_eq!(s.format, "m4a");
    assert!(YtDlp::stream_from_output(" \n").is_none());
}
