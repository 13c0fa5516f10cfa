use aux::config::{app_dir_name, config_file_in, Config};
use aux::config_cmd::{
    add_profile, ai_set, default_ai, format_key_status, get_key, media_set, parse_unsigned_exec, player_set,
    profile_settings, remove_profile, resolve_ai, set_key, masked_key, setup_ai_section, ConfigError, KeyStatus,
};

#[test]
fn numbers_parse_like_str_parse() {
    assert_eq!(parse_unsigned_exec("42", 255), Some(42));
    assert_eq!(parse_unsigned_exec("+7", 255), Some(7));
    assert_eq!(parse_unsigned_exec("007", 255), Some(7));
    assert_eq!(parse_unsigned_exec("255", 255), Some(255));
    assert_eq!(parse_unsigned_exec("256", 255), None);
    assert_eq!(parse_unsigned_exec("", 255), None);
    assert_eq!(parse_unsigned_exec("+", 255), None);
    assert_eq!(parse_unsigned_exec("-1", 255), None);
    assert_eq!(parse_unsigned_exec("1 ", 255), None);
    assert_eq!(parse_unsigned_exec("99999999999999999999999", u64::MAX), None);
    for n in [0u64, 1, 9, 10, 99, 100, 12345] {
        assert_eq!(parse_unsigned_exec(&n.to_string(), u64::MAX), n.to_string().parse::<u64>().ok());
    }
}

#[test]
fn set_and_get_player_keys() {
    let mut c = Config::default();
    assert_eq!(set_key(&mut c, "player.default_volume", "55"), Ok(()));
    assert_eq!(c.player.default_volume, 55);
    assert_eq!(get_key(&c, "player.default_volume"), Ok("55".to_string()));
    assert_eq!(set_key(&mut c, "player.default_volume", "101"), Err(ConfigError::VolumeOutOfRange));
    assert_eq!(set_key(&mut c, "player.default_volume", "300"), Err(ConfigError::VolumeNotNumber));
    assert_eq!(set_key(&mut c, "player.default_volume", "loud"), Err(ConfigError::VolumeNotNumber));
    assert_eq!(c.player.default_volume, 55);
    assert_eq!(set_key(&mut c, "player.search_results", "0"), Err(ConfigError::SearchResultsZero));
    assert_eq!(set_key(&mut c, "player.search_results", "x"), Err(ConfigError::SearchResultsNotNumber));
    assert_eq!(set_key(&mut c, "player.search_results", "12"), Ok(()));
    assert_eq!(get_key(&c, "player.search_results"), Ok("12".to_string()));
}

#[test]
fn set_and_get_media_keys() {
    let mut c = Config::default();
    assert_eq!(get_key(&c, "media.prefer_format"), Ok("m4a".to_string()));
    assert_eq!(set_key(&mut c, "youtube.prefer_format", "opus"), Ok(()));
    assert_eq!(get_key(&c, "media.prefer_format"), Ok("opus".to_string()));
    assert_eq!(set_key(&mut c, "media.default_source", "soundcloud"), Ok(()));
    assert_eq!(get_key(&c, "media.default_source"), Ok("soundcloud".to_string()));
}

#[test]
fn ai_keys_create_the_section() {
    let mut c = Config::default();
    assert_eq!(get_key(&c, "ai.model"), Err(ConfigError::KeyNotSet("ai.model".into())));
    assert_eq!(set_key(&mut c, "ai.model", "gpt-5"), Ok(()));
    let ai = c.ai.as_ref().unwrap();
    assert_eq!(ai.model, "gpt-5");
    assert_eq!(ai.provider, "openai");
    assert_eq!(ai.api_key_env, "OPENAI_API_KEY");
    assert_eq!(get_key(&c, "ai.base_url"), Err(ConfigError::KeyNotSet("ai.base_url".into())));
    assert_eq!(set_key(&mut c, "ai.base_url", "http://h"), Ok(()));
    assert_eq!(get_key(&c, "ai.base_url"), Ok("http://h".to_string()));
}

#[test]
fn unknown_keys() {
    let mut c = Config::default();
    let e = set_key(&mut c, "nope", "1").unwrap_err();
    assert_eq!(e, ConfigError::UnknownSetKey("nope".into()));
    assert!(e.message().starts_with("Unknown config key: 'nope'.\nValid keys: ai.provider"));
    let e = get_key(&c, "nope").unwrap_err();
    assert_eq!(e.message(), "Unknown config key: 'nope'");
}

#[test]
fn player_set_lines() {
    let mut c = Config::default();
    assert_eq!(player_set(&mut c, None, None, None), Err(ConfigError::NoPlayerFlags));
    assert_eq!(player_set(&mut c, Some(101), Some(3), None), Err(ConfigError::PlayerVolumeOutOfRange));
    assert_eq!(c.player.search_results, 5);
    assert_eq!(player_set(&mut c, Some(40), Some(0), None), Err(ConfigError::SearchResultsZero));
    assert_eq!(c.player.default_volume, 40);
    let lines = player_set(&mut c, Some(70), Some(8), Some("vlc".into())).unwrap();
    assert_eq!(lines, vec!["volume = 70", "search_results = 8", "backend = vlc"]);
    assert_eq!(c.player.backend, "vlc");
}

#[test]
fn media_set_lines() {
    let mut c = Config::default();
    assert_eq!(media_set(&mut c, None, None, None), Err(ConfigError::NoMediaFlags));
    let lines = media_set(&mut c, Some("opus".into()), None, Some("sc".into())).unwrap();
    assert_eq!(lines, vec!["prefer_format = opus", "default_source = sc"]);
    assert_eq!(c.youtube.prefer_format, "opus");
    assert_eq!(c.youtube.backend, "yt-dlp");
}

#[test]
fn ai_set_hides_the_key() {
    let mut c = Config::default();
    assert_eq!(ai_set(&mut c, None, None, None, None, None), Err(ConfigError::NoAiFlags));
    assert!(c.ai.is_some());
    let lines = ai_set(&mut c, Some("anthropic".into()), None, Some("sk-123".into()), None, None).unwrap();
    assert_eq!(lines, vec!["provider = anthropic", "api_key = ***"]);
    let ai = c.ai.as_ref().unwrap();
    assert_eq!(ai.api_key.as_deref(), Some("sk-123"));
    assert_eq!(ai.model, "gpt-4.1-mini");
}

#[test]
fn profiles_add_update_remove() {
    let mut c = Config::default();
    assert_eq!(remove_profile(&mut c, "deep"), Err(ConfigError::AiNotConfigured));
    add_profile(&mut c, "deep", Some("anthropic".into()), Some("big".into()), None, Some("ANTHROPIC_API_KEY".into()), None);
    add_profile(&mut c, "local", Some("ollama".into()), None, None, None, Some("http://localhost:11434".into()));
    add_profile(&mut c, "deep", None, Some("big-2".into()), None, None, None);
    {
        let ai = c.ai.as_ref().unwrap();
        assert_eq!(ai.profiles.len(), 2);
        assert_eq!(ai.profiles[0].0, "deep");
        assert_eq!(ai.profiles[0].1.provider.as_deref(), Some("anthropic"));
        assert_eq!(ai.profiles[0].1.model.as_deref(), Some("big-2"));
        let s = profile_settings(ai, 1);
        assert_eq!(s.name, "local");
        assert_eq!(s.provider, "ollama");
        assert_eq!(s.model, "gpt-4.1-mini");
        assert_eq!(s.api_key_env.as_deref(), Some("OPENAI_API_KEY"));
    }
    assert_eq!(remove_profile(&mut c, "deep"), Ok(()));
    assert_eq!(remove_profile(&mut c, "deep"), Err(ConfigError::ProfileNotFound("deep".into())));
    assert_eq!(c.ai.as_ref().unwrap().profiles.len(), 1);
}

#[test]
fn key_status_lines() {
    let k = format_key_status(&Some("sk-abcdefgh".into()), &None, &None);
    assert_eq!(k, KeyStatus::Inline("sk-abc".into()));
    assert_eq!(k.line(), "✅ set (sk-abc...)");
    let k = format_key_status(&Some("abc".into()), &None, &None);
    assert_eq!(k.line(), "✅ set (abc...)");
    let k = format_key_status(&Some("".into()), &Some("".into()), &None);
    assert_eq!(k, KeyStatus::NoKeyNeeded);
    assert_eq!(k.line(), "✅ no key needed");
    let k = format_key_status(&None, &Some("MY_KEY".into()), &Some("secret-value".into()));
    assert_eq!(k.line(), "✅ via $MY_KEY (secret...)");
    let k = format_key_status(&None, &Some("MY_KEY".into()), &Some("".into()));
    assert_eq!(k, KeyStatus::NotSet);
    assert_eq!(k.line(), "⚠️  not set");
    assert_eq!(format_key_status(&None, &None, &None), KeyStatus::NotSet);
}

#[test]
fn settings_in_effect() {
    let mut ai = default_ai();
    ai.api_key = Some("".into());
    ai.ollama_host = Some("http://box:11434".into());
    let s = resolve_ai(&ai, None).unwrap();
    assert_eq!(s.provider, "openai");
    assert_eq!(s.model, "gpt-4.1-mini");
    assert_eq!(s.api_key, None);
    assert_eq!(s.api_key_env, "OPENAI_API_KEY");
    assert_eq!(s.base_url, None);

    let mut c = Config::default();
    c.ai = Some(ai);
    add_profile(&mut c, "local", Some("ollama".into()), Some("llama3".into()), None, Some("".into()), None);
    add_profile(&mut c, "deep", Some("anthropic".into()), None, Some("sk-1".into()), None, Some("https://proxy".into()));
    let ai = c.ai.as_ref().unwrap();
    let s = resolve_ai(ai, Some("local")).unwrap();
    assert_eq!(s.provider, "ollama");
    assert_eq!(s.model, "llama3");
    assert_eq!(s.api_key_env, "");
    assert_eq!(s.base_url.as_deref(), Some("http://box:11434"));
    let s = resolve_ai(ai, Some("deep")).unwrap();
    assert_eq!(s.provider, "anthropic");
    assert_eq!(s.model, "gpt-4.1-mini");
    assert_eq!(s.api_key.as_deref(), Some("sk-1"));
    assert_eq!(s.base_url.as_deref(), Some("https://proxy"));
    assert!(matches!(resolve_ai(ai, Some("nope")), Err(ConfigError::ProfileNotFound(n)) if n == "nope"));
}

#[test]
fn config_file_location() {
    assert_eq!(app_dir_name(), "aux");
    assert_eq!(config_file_in(b"/home/u/.config/aux"), b"/home/u/.config/aux/config.toml".to_vec());
    assert_eq!(config_file_in(b"/home/u/.config/aux/"), b"/home/u/.config/aux/config.toml".to_vec());
    assert_eq!(config_file_in(b""), b"config.toml".to_vec());
    assert_eq!(config_file_in(b"/tmp/\xff\xfe"), b"/tmp/\xff\xfe/config.toml".to_vec());
    if let Some(p) = Config::config_path() {
        assert!(p.ends_with(b"/aux/config.toml"), "{}", String::from_utf8_lossy(&p));
    }
}

#[test]
fn setup_masks_and_assembles() {
    assert_eq!(masked_key("sk-abcdefghij1234"), "sk-abc...1234");
    assert_eq!(masked_key("abc"), "abc...abc");
    let mut c = Config::default();
    add_profile(&mut c, "deep", Some("anthropic".into()), None, None, None, None);
    let ai = setup_ai_section("gemini".into(), "g-1".into(), Some("k".into()), None, None, &c.ai);
    assert_eq!(ai.provider, "gemini");
    assert_eq!(ai.model, "g-1");
    assert_eq!(ai.api_key.as_deref(), Some("k"));
    assert_eq!(ai.api_key_env, "");
    assert_eq!(ai.profiles.len(), 1);
    assert_eq!(ai.profiles[0].0, "deep");
    let fresh = setup_ai_section("openai".into(), "m".into(), None, Some("OPENAI_API_KEY".into()), None, &None);
    assert_eq!(fresh.api_key_env, "OPENAI_API_KEY");
    assert!(fresh.profiles.is_empty());
}
