use aux::ai::chat::{ChatMessage, VideoContext};
use aux::ai::request::{
    auth_headers, default_base_url, endpoint, gemini_messages, max_tokens, provider_of, reply_text_or_default, require_api_key,
    split_system, ChatError, Provider,
};
use aux::media::source::Source;
use aux::media::types::MediaInfo;

fn msg(role: &str, content: &str) -> ChatMessage {
    ChatMessage { role: role.into(), content: content.into() }
}

#[test]
fn providers_and_keys() {
    assert_eq!(provider_of("anthropic"), Provider::Anthropic);
    assert_eq!(provider_of("gemini"), Provider::Gemini);
    assert_eq!(provider_of("ollama"), Provider::Ollama);
    assert_eq!(provider_of("openai"), Provider::OpenAiCompatible);
    assert_eq!(provider_of("groq"), Provider::OpenAiCompatible);
    assert_eq!(require_api_key("openai", &None), Err(ChatError::MissingApiKey));
    assert_eq!(require_api_key("openai", &Some(String::new())), Err(ChatError::MissingApiKey));
    assert_eq!(require_api_key("ollama", &None), Ok(()));
    assert_eq!(require_api_key("openai", &Some("k".into())), Ok(()));
    assert_eq!(ChatError::MissingApiKey.message(), "API key not found. Run: aux config ai --setup");
}

#[test]
fn endpoints() {
    assert_eq!(endpoint(Provider::Anthropic, "https://a", "m", "k"), "https://a/v1/messages");
    assert_eq!(
        endpoint(Provider::Gemini, "https://g", "gemini-2.5-flash", "KEY"),
        "https://g/v1beta/models/gemini-2.5-flash:generateContent?key=KEY"
    );
    assert_eq!(endpoint(Provider::Ollama, "http://l", "m", ""), "http://l/api/chat");
    assert_eq!(endpoint(Provider::OpenAiCompatible, "https://o/v1", "m", "k"), "https://o/v1/chat/completions");
}

#[test]
fn headers() {
    let h = auth_headers(Provider::Anthropic, "k1");
    assert_eq!(h, vec![("x-api-key".to_string(), "k1".to_string()), ("anthropic-version".to_string(), "2023-06-01".to_string())]);
    assert_eq!(auth_headers(Provider::OpenAiCompatible, "k2"), vec![("Authorization".to_string(), "Bearer k2".to_string())]);
    assert!(auth_headers(Provider::Gemini, "k").is_empty());
    assert!(auth_headers(Provider::Ollama, "k").is_empty());
    assert_eq!(max_tokens(Provider::Anthropic), Some(1000));
    assert_eq!(max_tokens(Provider::Ollama), None);
}

#[test]
fn message_shapes() {
    let ms = vec![msg("system", "S"), msg("user", "u1"), msg("assistant", "a1")];
    let g = gemini_messages(&ms);
    let roles: Vec<&str> = g.iter().map(|m| m.role.as_str()).collect();
    assert_eq!(roles, vec!["user", "user", "model"]);
    assert_eq!(g[2].content, "a1");
    let (system, rest) = split_system(&ms);
    assert_eq!(system, "S");
    assert_eq!(rest.len(), 2);
    assert_eq!(rest[0].role, "user");
    let (system, rest) = split_system(&vec![]);
    assert_eq!(system, "");
    assert!(rest.is_empty());
    assert_eq!(reply_text_or_default(None), "(no response)");
    assert_eq!(reply_text_or_default(Some("hi".into())), "hi");
}

#[test]
fn exchange_records_history() {
    let video = MediaInfo {
        id: "".into(),
        title: "".into(),
        channel: None,
        duration: None,
        view_count: None,
        thumbnail: None,
        url: "".into(),
        description: None,
        source: Source::YouTube,
        extractor_key: None,
    };
    let mut ctx = VideoContext::new(video, None);
    let messages = ctx.begin_exchange("hello");
    assert_eq!(ctx.chat_history.len(), 1);
    assert_eq!(messages.len(), 3);
    assert_eq!(messages[0].role, "system");
    assert_eq!(messages[1].content, "hello");
    assert_eq!(messages[2].role, "user");
    assert_eq!(messages[2].content, "hello");
    ctx.finish_exchange("hi there".into());
    assert_eq!(ctx.chat_history.len(), 2);
    assert_eq!(ctx.chat_history[1].role, "assistant");
    assert_eq!(ctx.chat_history[1].content, "hi there");
}

#[test]
fn default_addresses() {
    assert_eq!(default_base_url("anthropic"), "https://api.anthropic.com");
    assert_eq!(default_base_url("gemini"), "https://generativelanguage.googleapis.com");
    assert_eq!(default_base_url("ollama"), "http://localhost:11434");
    assert_eq!(default_base_url("openai"), "https://api.openai.com/v1");
    assert_eq!(default_base_url("groq"), "https://api.openai.com/v1");
}

#[test]
fn missing_key_leaves_history_alone() {
    let video = MediaInfo {
        id: "v".into(),
        title: "t".into(),
        channel: None,
        duration: None,
        view_count: None,
        thumbnail: None,
        url: "u".into(),
        description: None,
        source: Source::YouTube,
        extractor_key: None,
    };
    let mut ctx = VideoContext::new(video, None);
    assert!(matches!(ctx.open_exchange("openai", &None, "hi"), Err(ChatError::MissingApiKey)));
    assert!(matches!(ctx.open_exchange("openai", &Some("".into()), "hi"), Err(ChatError::MissingApiKey)));
    assert!(ctx.chat_history.is_empty());
    let messages = ctx.open_exchange("ollama", &None, "hi").unwrap();
    assert_eq!(messages.last().unwrap().content, "hi");
    ctx.finish_exchange("hello back".into());
    let turns: Vec<(String, String)> = ctx.chat_history.iter().map(|m| (m.role.clone(), m.content.clone())).collect();
    assert_eq!(turns, vec![("user".into(), "hi".into()), ("assistant".into(), "hello back".into())]);
}
