use aux::ai::transcript::{
    assemble_segments, choose_subtitle, dedup_segments, description_transcript, parse_vtt_cues,
    strip_vtt_tags, subtitle_lang, transcript_from_segments, TimedCue, Transcript, TranscriptSegment,
    DESCRIPTION_END_MS,
};

fn seg(start: u64, end: u64, text: &str) -> TranscriptSegment {
    TranscriptSegment { start, end, text: text.to_string() }
}

#[test]
fn strips_tags() {
    assert_eq!(strip_vtt_tags("<00:00:01.000><c> hello</c> world "), "hello world");
    assert_eq!(strip_vtt_tags("<b>bold</b>"), "bold");
    assert_eq!(strip_vtt_tags("plain"), "plain");
}

#[test]
fn full_text_and_window() {
    let t = Transcript {
        language: "en".into(),
        segments: vec![seg(0, 4000, "a"), seg(5000, 9000, "b"), seg(400_000, 405_000, "c")],
    };
    assert_eq!(t.full_text(), "a b c");
    assert_eq!(t.text_around(6000, 5), "b");
    assert_eq!(t.text_around(6000, 6), "a b");
    assert_eq!(t.text_around(402_000, 10), "c");
    assert_eq!(t.text_around(200_000, 1), "");
}

#[test]
fn vtt_cues_are_split() {
    let vtt = "WEBVTT\n\n00:00:01.000 --> 00:00:04.000\nHello <c>there</c>\n<00:00:02.000>\nfriend\n\n00:04.000 --> 00:06.500 align:start\nBye\n";
    let cues = parse_vtt_cues(vtt);
    assert_eq!(cues.len(), 2);
    assert_eq!(cues[0].start, "00:00:01.000");
    assert_eq!(cues[0].end, "00:00:04.000");
    assert_eq!(cues[0].text, "Hello there friend");
    assert_eq!(cues[1].start, "00:04.000");
    assert_eq!(cues[1].end, "00:06.500 align:start");
    assert_eq!(cues[1].text, "Bye");
}

#[test]
fn vtt_crlf_lines() {
    let cues = parse_vtt_cues("00:01.000 --> 00:02.000\r\nline one\r\nline two\r\n");
    assert_eq!(cues.len(), 1);
    assert_eq!(cues[0].text, "line one line two");
}

#[test]
fn dedup_merges_repeats() {
    let out = dedup_segments(vec![seg(0, 1000, "x"), seg(1000, 3000, "x"), seg(3000, 4000, "y"), seg(4000, 5000, "x")]);
    assert_eq!(out.len(), 3);
    assert_eq!((out[0].start, out[0].end), (0, 3000));
    assert_eq!(out[1].text, "y");
    assert_eq!(out[2].text, "x");
}

#[test]
fn assembly_filters_dedups_and_fills_gaps() {
    let cues = vec![
        TimedCue { start: Some(0), end: Some(1000), text: "one".into() },
        TimedCue { start: None, end: Some(1500), text: "lost".into() },
        TimedCue { start: Some(1000), end: Some(2000), text: "one".into() },
        TimedCue { start: Some(2500), end: Some(3000), text: "".into() },
        TimedCue { start: Some(5000), end: Some(6000), text: "two".into() },
    ];
    let segs = assemble_segments(cues);
    assert_eq!(segs.len(), 2);
    assert_eq!((segs[0].start, segs[0].end, segs[0].text.as_str()), (0, 5000, "one"));
    assert_eq!((segs[1].start, segs[1].end, segs[1].text.as_str()), (5000, 6000, "two"));
}

#[test]
fn description_fallback() {
    let t = description_transcript("  A great song\n").unwrap();
    assert_eq!(t.language, "description");
    assert_eq!(t.segments.len(), 1);
    assert_eq!(t.segments[0].end, DESCRIPTION_END_MS);
    assert_eq!(t.segments[0].text, "A great song");
    assert!(description_transcript("NA\n").is_none());
    assert!(description_transcript("   ").is_none());
}

#[test]
fn subtitle_choice() {
    assert_eq!(subtitle_lang("sub.en-en"), "en-en");
    assert_eq!(subtitle_lang("sub.vi"), "vi");
    assert_eq!(subtitle_lang("plain"), "plain");
    let langs = vec!["en-en".to_string(), "vi".to_string(), "en".to_string()];
    assert_eq!(choose_subtitle(&langs, &vec![true, true, true]), Some(1));
    assert_eq!(choose_subtitle(&langs, &vec![true, false, true]), Some(2));
    assert_eq!(choose_subtitle(&langs, &vec![false, false, false]), None);
    assert!(transcript_from_segments("en".into(), vec![]).is_none());
    assert!(transcript_from_segments("en".into(), vec![seg(0, 1, "a")]).is_some());
}

#[test]
fn stripping_twice_changes_nothing() {
    for raw in ["<00:00:01.000><c> hi</c> there ", "  a <i>b</i> c  ", "<<x>>y", "plain"] {
        let once = strip_vtt_tags(raw);
        assert!(!once.contains('<') && !once.contains('>'));
        assert_eq!(once.trim(), once);
        assert_eq!(strip_vtt_tags(&once), once);
    }
    assert_eq!(strip_vtt_tags("<00:00:01.000><c> hi</c> there "), "hi there");
}

#[test]
fn assembled_vtt_segments_are_clean_and_contiguous() {
    let vtt = "WEBVTT\n\n00:00:01.000 --> 00:00:02.000\n<c> hello</c>\n\n00:00:02.000 --> 00:00:03.000\nhello\n\n00:00:05.000 --> 00:00:06.000\n  <i>bye</i> now  \n";
    let cues = parse_vtt_cues(vtt);
    assert_eq!(cues.len(), 3);
    let timed: Vec<TimedCue> = cues
        .iter()
        .enumerate()
        .map(|(i, c)| TimedCue { start: Some([1000, 2000, 5000][i]), end: Some([2000, 3000, 6000][i]), text: c.text.clone() })
        .collect();
    let segs = assemble_segments(timed);
    assert_eq!(segs.len(), 2);
    assert_eq!(segs[0].text, "hello");
    assert_eq!(segs[0].end, 5000);
    assert_eq!(segs[1].text, "bye now");
    for s in &segs {
        assert!(!s.text.contains('<') && s.text.trim() == s.text && !s.text.is_empty());
    }
}
