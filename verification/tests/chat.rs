use aux::ai::chat::{chat_response_candidates, extract_json_object, truncate_text, ChatMessage, VideoContext, PLAYER_CONTROL_PROMPT};
use aux::ai::transcript::{Transcript, TranscriptSegment};
use aux::media::source::Source;
use aux::media::types::MediaInfo;

fn video(id: &str) -> MediaInfo {
    MediaInfo {
        id: id.to_string(),
        title: "Shape of You".to_string(),
        channel: Some("Ed Sheeran".to_string()),
        duration: Some(263),
        view_count: None,
        thumbnail: None,
        url: "https://youtube.com/watch?v=x".to_string(),
        description: None,
        source: Source::YouTube,
        extractor_key: None,
    }
}

#[test]
fn json_object_by_brace_matching() {
    assert_eq!(extract_json_object("Sure! {\"a\": {\"b\": 1}} done"), Some("{\"a\": {\"b\": 1}}"));
    assert_eq!(extract_json_object("x {\"m\": \"}{\\\"\"} y"), Some("{\"m\": \"}{\\\"\"}"));
    assert_eq!(extract_json_object("no braces"), None);
    assert_eq!(extract_json_object("{ unclosed"), None);
}

#[test]
fn truncation_marks_the_cut() {
    assert_eq!(truncate_text("hello", 10), "hello");
    assert_eq!(truncate_text("hello world", 5), "hello... [truncated]");
    assert_eq!(truncate_text("héllo", 3), "hé... [truncated]");
}

#[test]
fn reply_candidates_in_order() {
    let c = chat_response_candidates("  {\"action\": null, \"message\": \"hi\"}  ");
    assert_eq!(c, vec!["{\"action\": null, \"message\": \"hi\"}".to_string(), "{\"action\": null, \"message\": \"hi\"}".to_string()]);
    let f = chat_response_candidates("```json\n{\"message\": \"x\"}\n```");
    assert_eq!(f.len(), 3);
    assert_eq!(f[1], "{\"message\": \"x\"}");
    assert_eq!(f[2], "{\"message\": \"x\"}");
    let p = chat_response_candidates("just text");
    assert_eq!(p, vec!["just text".to_string()]);
}

#[test]
fn system_prompt_contents() {
    let mut ctx = VideoContext::new(video("x"), None);
    ctx.search_results = vec!["First".to_string(), "Second".to_string()];
    let p = ctx.build_system_prompt();
    assert!(p.starts_with("You are Aux 🎵, an AI music companion. Be conversational, fun, and helpful."));
    assert!(p.contains("Video: Shape of You\nChannel: Ed Sheeran\nDuration: 4:23\n"));
    assert!(p.contains("⚠️ No transcript available."));
    assert!(p.contains(PLAYER_CONTROL_PROMPT));
    assert!(p.ends_with("\n## Current Search Results\nUse play_result with the index to play one of these:\n1. First\n2. Second\n"));

    let t = Transcript {
        language: "en".into(),
        segments: vec![TranscriptSegment { start: 1000, end: 2000, text: "la la".into() }],
    };
    let ctx2 = VideoContext::new(video(""), Some(t));
    let p2 = ctx2.build_system_prompt();
    assert!(p2.contains("No track is currently playing."));
    assert!(p2.contains("\nVideo transcript (around current position):\nla la\n"));
}

#[test]
fn messages_keep_last_ten() {
    let mut ctx = VideoContext::new(video("x"), None);
    for i in 0..12 {
        ctx.chat_history.push(ChatMessage { role: "user".into(), content: format!("m{}", i) });
    }
    let msgs = ctx.build_messages("now");
    assert_eq!(msgs.len(), 12);
    assert_eq!(msgs[0].role, "system");
    assert_eq!(msgs[1].content, "m2");
    assert_eq!(msgs[10].content, "m11");
    assert_eq!(msgs[11].role, "user");
    assert_eq!(msgs[11].content, "now");
}
