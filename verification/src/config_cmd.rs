use vstd::prelude::*;

use crate::config::{
    opt_view, profiles_view, AiConfig, AiProfile, AiView, Config, ConfigView, PlayerView, ProfileView, YoutubeView,
};
use crate::library::playlist::opt_string_view;
use crate::text::{append_str, chars_eq, chars_of, decimal, push_decimal, string_of};
use crate::util::{digit_value, is_ascii_digit};
use vstd::utf8::{decode_utf8, encode_utf8, is_char_boundary};

verus! {

// ── Unsigned numbers, as `str::parse` reads them ────────────────────────

pub open spec fn all_digits(s: Seq<char>) -> bool {
    forall|i: int| 0 <= i < s.len() ==> is_ascii_digit(#[trigger] s[i])
}

pub open spec fn digits_value(s: Seq<char>) -> int
    decreases s.len(),
{
    if s.len() == 0 {
        0
    } else {
        digits_value(s.drop_last()) * 10 + digit_value(s.last())
    }
}

/// The digits of an unsigned number: an optional `+`, then at least one
/// character.
pub open spec fn unsigned_digits(s: Seq<char>) -> Option<Seq<char>> {
    if s.len() == 0 {
        None
    } else if s[0] == '+' {
        if s.len() > 1 {
            Some(s.subrange(1, s.len() as int))
        } else {
            None
        }
    } else {
        Some(s)
    }
}

/// The value `parse` gives for an unsigned integer type whose largest value
/// is `max`, or `None` where it fails.
pub open spec fn parse_unsigned(s: Seq<char>, max: int) -> Option<int> {
    match unsigned_digits(s) {
        Some(d) => if all_digits(d) && digits_value(d) <= max {
            Some(digits_value(d))
        } else {
            None
        },
        None => None,
    }
}

proof fn lemma_digits_value_monotone(s: Seq<char>, k: int)
    requires
        all_digits(s),
        0 <= k <= s.len(),
    ensures
        0 <= digits_value(s.take(k)) <= digits_value(s),
    decreases s.len(),
{
    if s.len() == 0 {
        assert(s.take(k) =~= s);
    } else if k == s.len() {
        assert(s.take(k) =~= s);
        lemma_digits_value_nonneg(s);
    } else {
        let p = s.drop_last();
        assert(all_digits(p));
        lemma_digits_value_monotone(p, k);
        assert(p.take(k) =~= s.take(k));
        assert(is_ascii_digit(s[s.len() - 1]));
        lemma_digits_value_nonneg(p);
    }
}

proof fn lemma_digits_value_nonneg(s: Seq<char>)
    requires
        all_digits(s),
    ensures
        digits_value(s) >= 0,
    decreases s.len(),
{
    if s.len() > 0 {
        let p = s.drop_last();
        assert(all_digits(p));
        lemma_digits_value_nonneg(p);
        assert(is_ascii_digit(s[s.len() - 1]));
    }
}

/// Read an unsigned decimal number no larger than `max`.
pub fn parse_unsigned_exec(s: &str, max: u64) -> (r: Option<u64>)
    ensures
        match r {
            Some(v) => parse_unsigned(s@, max as int) == Some(v as int),
            None => parse_unsigned(s@, max as int) is None,
        },
{
    let cs = chars_of(s);
    if cs.len() == 0 {
        return None;
    }
    let start: usize = if cs[0] == '+' {
        1
    } else {
        0
    };
    if start == 1 && cs.len() == 1 {
        return None;
    }
    let ghost d = cs@.subrange(start as int, cs@.len() as int);
    assert(unsigned_digits(s@) == Some(d));
    let mut acc: u128 = 0;
    let mut i: usize = start;
    while i < cs.len()
        invariant
            cs@ == s@,
            unsigned_digits(s@) == Some(d),
            start <= i <= cs@.len(),
            d == cs@.subrange(start as int, cs@.len() as int),
            all_digits(d.take(i - start)),
            acc as int == digits_value(d.take(i - start)),
            acc <= max,
        decreases cs@.len() - i,
    {
        let c = cs[i];
        if !('0' <= c && c <= '9') {
            assert(d[i - start] == c);
            assert(!is_ascii_digit(d[i - start]));
            return None;
        }
        let v = (c as u32 - '0' as u32) as u128;
        let ghost k = i - start;
        assert(d.take(k + 1).drop_last() =~= d.take(k));
        assert(d.take(k + 1).last() == c);
        acc = acc * 10 + v;
        assert(all_digits(d.take(k + 1)));
        assert(acc as int == digits_value(d.take(k + 1)));
        if acc > max as u128 {
            proof {
                if all_digits(d) {
                    lemma_digits_value_monotone(d, k + 1);
                }
            }
            return None;
        }
        i = i + 1;
    }
    assert(d.take(cs@.len() - start) =~= d);
    Some(acc as u64)
}

// ── Errors ──────────────────────────────────────────────────────────────

/// Why a configuration command was refused.
#[derive(Debug, Clone, PartialEq, Eq)]
pub enum ConfigError {
    /// `set` with a key that is not one of the known keys.
    UnknownSetKey(String),
    /// `get` with a key that is not one of the known keys.
    UnknownGetKey(String),
    /// `get` of a key that has no value.
    KeyNotSet(String),
    VolumeNotNumber,
    VolumeOutOfRange,
    SearchResultsNotNumber,
    SearchResultsZero,
    /// `config player set --volume` above 100.
    PlayerVolumeOutOfRange,
    NoPlayerFlags,
    NoMediaFlags,
    NoAiFlags,
    AiNotConfigured,
    ProfileNotFound(String),
}

pub open spec fn valid_keys_text() -> Seq<char> {
    "ai.provider, ai.model, ai.api_key_env, ai.base_url, player.default_volume, player.search_results, media.prefer_format, media.default_source"@
}

impl ConfigError {
    pub open spec fn message_text(self) -> Seq<char> {
        match self {
            ConfigError::UnknownSetKey(k) => "Unknown config key: '"@ + k@ + "'.\nValid keys: "@ + valid_keys_text(),
            ConfigError::UnknownGetKey(k) => "Unknown config key: '"@ + k@ + "'"@,
            ConfigError::KeyNotSet(k) => "Key '"@ + k@ + "' is not set"@,
            ConfigError::VolumeNotNumber => "default_volume must be a number between 0 and 100"@,
            ConfigError::VolumeOutOfRange => "default_volume must be between 0 and 100"@,
            ConfigError::SearchResultsNotNumber => "search_results must be a positive number"@,
            ConfigError::SearchResultsZero => "search_results must be >= 1"@,
            ConfigError::PlayerVolumeOutOfRange => "Volume must be between 0 and 100"@,
            ConfigError::NoPlayerFlags => "No flags provided. Use --volume, --search-results, or --backend"@,
            ConfigError::NoMediaFlags => "No flags provided. Use --format, --backend, or --default-source"@,
            ConfigError::NoAiFlags => "No flags provided. Use --provider, --model, --api-key, --api-key-env, or --base-url"@,
            ConfigError::AiNotConfigured => "AI not configured"@,
            ConfigError::ProfileNotFound(n) => "Profile '"@ + n@ + "' not found"@,
        }
    }

    pub fn message(&self) -> (r: String)
        ensures
            r@ == self.message_text(),
    {
        let mut out: Vec<char> = Vec::new();
        match self {
            ConfigError::UnknownSetKey(k) => {
                append_str(&mut out, "Unknown config key: '");
                append_str(&mut out, k.as_str());
                append_str(&mut out, "'.\nValid keys: ");
                append_str(
                    &mut out,
                    "ai.provider, ai.model, ai.api_key_env, ai.base_url, player.default_volume, player.search_results, media.prefer_format, media.default_source",
                );
            },
            ConfigError::UnknownGetKey(k) => {
                append_str(&mut out, "Unknown config key: '");
                append_str(&mut out, k.as_str());
                append_str(&mut out, "'");
            },
            ConfigError::KeyNotSet(k) => {
                append_str(&mut out, "Key '");
                append_str(&mut out, k.as_str());
                append_str(&mut out, "' is not set");
            },
            ConfigError::VolumeNotNumber => append_str(&mut out, "default_volume must be a number between 0 and 100"),
            ConfigError::VolumeOutOfRange => append_str(&mut out, "default_volume must be between 0 and 100"),
            ConfigError::SearchResultsNotNumber => append_str(&mut out, "search_results must be a positive number"),
            ConfigError::SearchResultsZero => append_str(&mut out, "search_results must be >= 1"),
            ConfigError::PlayerVolumeOutOfRange => append_str(&mut out, "Volume must be between 0 and 100"),
            ConfigError::NoPlayerFlags => append_str(
                &mut out,
                "No flags provided. Use --volume, --search-results, or --backend",
            ),
            ConfigError::NoMediaFlags => append_str(
                &mut out,
                "No flags provided. Use --format, --backend, or --default-source",
            ),
            ConfigError::NoAiFlags => append_str(
                &mut out,
                "No flags provided. Use --provider, --model, --api-key, --api-key-env, or --base-url",
            ),
            ConfigError::AiNotConfigured => append_str(&mut out, "AI not configured"),
            ConfigError::ProfileNotFound(n) => {
                append_str(&mut out, "Profile '");
                append_str(&mut out, n.as_str());
                append_str(&mut out, "' not found");
            },
        }
        string_of(&out)
    }
}

// ── Setting and reading single keys ─────────────────────────────────────

fn owned(s: &str) -> (r: String)
    ensures
        r@ == s@,
{
    string_of(&chars_of(s))
}

/// The AI section that commands create when there is none yet.
pub open spec fn default_ai_view() -> AiView {
    AiView {
        provider: "openai"@,
        model: "gpt-4.1-mini"@,
        api_key_env: "OPENAI_API_KEY"@,
        ollama_host: None,
        api_key: None,
        base_url: None,
        profiles: Seq::empty(),
    }
}

pub fn default_ai() -> (r: AiConfig)
    ensures
        r@ == default_ai_view(),
{
    let r = AiConfig {
        provider: owned("openai"),
        model: owned("gpt-4.1-mini"),
        api_key_env: owned("OPENAI_API_KEY"),
        ollama_host: None,
        api_key: None,
        base_url: None,
        profiles: Vec::new(),
    };
    assert(profiles_view(r.profiles@) =~= Seq::<(Seq<char>, ProfileView)>::empty());
    r
}

/// The AI section of `c`, or the default one when it has none.
pub open spec fn ai_or_default(c: ConfigView) -> AiView {
    match c.ai {
        Some(a) => a,
        None => default_ai_view(),
    }
}

/// `c` with its AI section replaced.
pub open spec fn with_ai(c: ConfigView, a: AiView) -> ConfigView {
    ConfigView { ai: Some(a), ..c }
}

/// Create the AI section with its defaults when there is none.
fn ensure_ai(config: &mut Config)
    ensures
        final(config).ai is Some,
        final(config)@ == with_ai(old(config)@, ai_or_default(old(config)@)),
{
    if config.ai.is_none() {
        config.ai = Some(default_ai());
    }
}

/// The known keys are told apart by their length or by one character.
proof fn lemma_keys_distinct()
    ensures
        "ai.provider"@.len() == 11,
        "ai.model"@.len() == 8,
        "ai.api_key_env"@.len() == 14,
        "ai.base_url"@.len() == 11,
        "player.default_volume"@.len() == 21,
        "player.search_results"@.len() == 21,
        "media.prefer_format"@.len() == 19,
        "youtube.prefer_format"@.len() == 21,
        "media.default_source"@.len() == 20,
        "ai.provider"@[3] != "ai.base_url"@[3],
        "player.default_volume"@[7] != "player.search_results"@[7],
        "player.default_volume"@[0] != "youtube.prefer_format"@[0],
        "player.search_results"@[0] != "youtube.prefer_format"@[0],
{
    reveal_strlit("ai.provider");
    reveal_strlit("ai.model");
    reveal_strlit("ai.api_key_env");
    reveal_strlit("ai.base_url");
    reveal_strlit("player.default_volume");
    reveal_strlit("player.search_results");
    reveal_strlit("media.prefer_format");
    reveal_strlit("youtube.prefer_format");
    reveal_strlit("media.default_source");
}

pub open spec fn is_set_key(key: Seq<char>) -> bool {
    key == "ai.provider"@ || key == "ai.model"@ || key == "ai.api_key_env"@ || key == "ai.base_url"@ || key
        == "player.default_volume"@ || key == "player.search_results"@ || key == "media.prefer_format"@ || key
        == "youtube.prefer_format"@ || key == "media.default_source"@
}

/// `config set KEY VALUE`: change one setting (the caller saves the file).
pub fn set_key(config: &mut Config, key: &str, value: &str) -> (r: Result<(), ConfigError>)
    ensures
        key@ == "ai.provider"@ ==> r is Ok && final(config)@ == with_ai(
            old(config)@,
            AiView { provider: value@, ..ai_or_default(old(config)@) },
        ),
        key@ == "ai.model"@ ==> r is Ok && final(config)@ == with_ai(
            old(config)@,
            AiView { model: value@, ..ai_or_default(old(config)@) },
        ),
        key@ == "ai.api_key_env"@ ==> r is Ok && final(config)@ == with_ai(
            old(config)@,
            AiView { api_key_env: value@, ..ai_or_default(old(config)@) },
        ),
        key@ == "ai.base_url"@ ==> r is Ok && final(config)@ == with_ai(
            old(config)@,
            AiView { base_url: Some(value@), ..ai_or_default(old(config)@) },
        ),
        key@ == "player.default_volume"@ ==> match parse_unsigned(value@, 255) {
            None => r == Err::<(), ConfigError>(ConfigError::VolumeNotNumber) && *final(config) == *old(config),
            Some(v) => if v > 100 {
                r == Err::<(), ConfigError>(ConfigError::VolumeOutOfRange) && *final(config) == *old(config)
            } else {
                r is Ok && final(config)@ == (ConfigView {
                    player: PlayerView { default_volume: v as u8, ..old(config)@.player },
                    ..old(config)@
                })
            },
        },
        key@ == "player.search_results"@ ==> match parse_unsigned(value@, usize::MAX as int) {
            None => r == Err::<(), ConfigError>(ConfigError::SearchResultsNotNumber) && *final(config) == *old(config),
            Some(v) => if v == 0 {
                r == Err::<(), ConfigError>(ConfigError::SearchResultsZero) && *final(config) == *old(config)
            } else {
                r is Ok && final(config)@ == (ConfigView {
                    player: PlayerView { search_results: v as usize, ..old(config)@.player },
                    ..old(config)@
                })
            },
        },
        key@ == "media.prefer_format"@ || key@ == "youtube.prefer_format"@ ==> r is Ok && final(config)@ == (
        ConfigView { youtube: YoutubeView { prefer_format: value@, ..old(config)@.youtube }, ..old(config)@ }),
        key@ == "media.default_source"@ ==> r is Ok && final(config)@ == (ConfigView {
            youtube: YoutubeView { default_source: value@, ..old(config)@.youtube },
            ..old(config)@
        }),
        !is_set_key(key@) ==> *final(config) == *old(config) && (r matches Err(ConfigError::UnknownSetKey(k)) && k@
            == key@),
{
    proof {
        lemma_keys_distinct();
    }
    let k = chars_of(key);
    if chars_eq(&k, "ai.provider") {
        ensure_ai(config);
        match &mut config.ai {
            Some(a) => a.provider = owned(value),
            None => {},
        }
        Ok(())
    } else if chars_eq(&k, "ai.model") {
        ensure_ai(config);
        match &mut config.ai {
            Some(a) => a.model = owned(value),
            None => {},
        }
        Ok(())
    } else if chars_eq(&k, "ai.api_key_env") {
        ensure_ai(config);
        match &mut config.ai {
            Some(a) => a.api_key_env = owned(value),
            None => {},
        }
        Ok(())
    } else if chars_eq(&k, "ai.base_url") {
        ensure_ai(config);
        match &mut config.ai {
            Some(a) => a.base_url = Some(owned(value)),
            None => {},
        }
        Ok(())
    } else if chars_eq(&k, "player.default_volume") {
        match parse_unsigned_exec(value, 255) {
            None => Err(ConfigError::VolumeNotNumber),
            Some(v) => {
                if v > 100 {
                    Err(ConfigError::VolumeOutOfRange)
                } else {
                    config.player.default_volume = v as u8;
                    Ok(())
                }
            },
        }
    } else if chars_eq(&k, "player.search_results") {
        match parse_unsigned_exec(value, usize::MAX as u64) {
            None => Err(ConfigError::SearchResultsNotNumber),
            Some(v) => {
                if v == 0 {
                    Err(ConfigError::SearchResultsZero)
                } else {
                    config.player.search_results = v as usize;
                    Ok(())
                }
            },
        }
    } else if chars_eq(&k, "media.prefer_format") || chars_eq(&k, "youtube.prefer_format") {
        config.youtube.prefer_format = owned(value);
        Ok(())
    } else if chars_eq(&k, "media.default_source") {
        config.youtube.default_source = owned(value);
        Ok(())
    } else {
        Err(ConfigError::UnknownSetKey(owned(key)))
    }
}

/// What `config get KEY` reads: `None` for an unknown key, `Some(None)`
/// for a key without a value.
pub open spec fn key_value(c: ConfigView, key: Seq<char>) -> Option<Option<Seq<char>>> {
    if key == "ai.provider"@ {
        Some(match c.ai { Some(a) => Some(a.provider), None => None })
    } else if key == "ai.model"@ {
        Some(match c.ai { Some(a) => Some(a.model), None => None })
    } else if key == "ai.api_key_env"@ {
        Some(match c.ai { Some(a) => Some(a.api_key_env), None => None })
    } else if key == "ai.base_url"@ {
        Some(match c.ai { Some(a) => a.base_url, None => None })
    } else if key == "player.default_volume"@ {
        Some(Some(decimal(c.player.default_volume as nat)))
    } else if key == "player.search_results"@ {
        Some(Some(decimal(c.player.search_results as nat)))
    } else if key == "media.prefer_format"@ || key == "youtube.prefer_format"@ {
        Some(Some(c.youtube.prefer_format))
    } else if key == "media.default_source"@ {
        Some(Some(c.youtube.default_source))
    } else {
        None
    }
}

fn opt_owned(o: &Option<String>) -> (r: Option<String>)
    ensures
        opt_view(r) == opt_view(*o),
{
    match o {
        Some(s) => Some(owned(s.as_str())),
        None => None,
    }
}

/// `config get KEY`: the value of one setting.
pub fn get_key(config: &Config, key: &str) -> (r: Result<String, ConfigError>)
    ensures
        match key_value(config@, key@) {
            None => r matches Err(ConfigError::UnknownGetKey(k)) && k@ == key@,
            Some(None) => r matches Err(ConfigError::KeyNotSet(k)) && k@ == key@,
            Some(Some(v)) => r matches Ok(s) && s@ == v,
        },
{
    proof {
        lemma_keys_distinct();
    }
    let k = chars_of(key);
    let value: Option<String> = if chars_eq(&k, "ai.provider") {
        match &config.ai {
            Some(a) => Some(owned(a.provider.as_str())),
            None => None,
        }
    } else if chars_eq(&k, "ai.model") {
        match &config.ai {
            Some(a) => Some(owned(a.model.as_str())),
            None => None,
        }
    } else if chars_eq(&k, "ai.api_key_env") {
        match &config.ai {
            Some(a) => Some(owned(a.api_key_env.as_str())),
            None => None,
        }
    } else if chars_eq(&k, "ai.base_url") {
        match &config.ai {
            Some(a) => opt_owned(&a.base_url),
            None => None,
        }
    } else if chars_eq(&k, "player.default_volume") {
        let mut out: Vec<char> = Vec::new();
        push_decimal(&mut out, config.player.default_volume as u64);
        Some(string_of(&out))
    } else if chars_eq(&k, "player.search_results") {
        let mut out: Vec<char> = Vec::new();
        push_decimal(&mut out, config.player.search_results as u64);
        Some(string_of(&out))
    } else if chars_eq(&k, "media.prefer_format") || chars_eq(&k, "youtube.prefer_format") {
        Some(owned(config.youtube.prefer_format.as_str()))
    } else if chars_eq(&k, "media.default_source") {
        Some(owned(config.youtube.default_source.as_str()))
    } else {
        return Err(ConfigError::UnknownGetKey(owned(key)));
    };
    match value {
        Some(v) => Ok(v),
        None => Err(ConfigError::KeyNotSet(owned(key))),
    }
}

// ── Section commands ────────────────────────────────────────────────────

/// One line `"{label}{value}"` when a value was given.
pub open spec fn opt_line(label: Seq<char>, value: Option<Seq<char>>) -> Seq<Seq<char>> {
    match value {
        Some(v) => seq![label + v],
        None => Seq::empty(),
    }
}

pub open spec fn opt_decimal_u8(o: Option<u8>) -> Option<Seq<char>> {
    match o {
        Some(v) => Some(decimal(v as nat)),
        None => None,
    }
}

pub open spec fn opt_decimal_usize(o: Option<usize>) -> Option<Seq<char>> {
    match o {
        Some(v) => Some(decimal(v as nat)),
        None => None,
    }
}

fn push_line(lines: &mut Vec<String>, label: &str, value: &str)
    ensures
        final(lines)@.len() == old(lines)@.len() + 1,
        final(lines)@.drop_last() == old(lines)@,
        final(lines)@.last()@ == label@ + value@,
{
    let mut out: Vec<char> = Vec::new();
    append_str(&mut out, label);
    append_str(&mut out, value);
    lines.push(string_of(&out));
}

fn push_number_line(lines: &mut Vec<String>, label: &str, value: u64)
    ensures
        final(lines)@.len() == old(lines)@.len() + 1,
        final(lines)@.drop_last() == old(lines)@,
        final(lines)@.last()@ == label@ + decimal(value as nat),
{
    let mut out: Vec<char> = Vec::new();
    append_str(&mut out, label);
    push_decimal(&mut out, value);
    lines.push(string_of(&out));
}

pub open spec fn player_applied(p: PlayerView, volume: Option<u8>, search_results: Option<usize>, backend: Option<Seq<char>>) -> PlayerView {
    PlayerView {
        default_volume: match volume { Some(v) => v, None => p.default_volume },
        search_results: match search_results { Some(s) => s, None => p.search_results },
        backend: match backend { Some(b) => b, None => p.backend },
    }
}

pub open spec fn player_lines(volume: Option<u8>, search_results: Option<usize>, backend: Option<Seq<char>>) -> Seq<Seq<char>> {
    opt_line("volume = "@, opt_decimal_u8(volume)) + opt_line("search_results = "@, opt_decimal_usize(search_results))
        + opt_line("backend = "@, backend)
}

/// `config player set`: the volume must be at most 100 and the result count
/// positive; at least one setting must be given. Returns the changed
/// settings as `"name = value"` lines (the caller saves and prints them).
/// As the settings are applied in order, a refused result count leaves a
/// given volume applied in memory.
pub fn player_set(config: &mut Config, volume: Option<u8>, search_results: Option<usize>, backend: Option<String>) -> (r: Result<Vec<String>, ConfigError>)
    ensures
        volume matches Some(v) && v > 100 ==> r == Err::<Vec<String>, ConfigError>(
            ConfigError::PlayerVolumeOutOfRange,
        ) && *final(config) == *old(config),
        !(volume matches Some(v) && v > 100) && search_results == Some(0usize) ==> r == Err::<
            Vec<String>,
            ConfigError,
        >(ConfigError::SearchResultsZero) && final(config)@ == (ConfigView {
            player: player_applied(old(config)@.player, volume, None, None),
            ..old(config)@
        }),
        volume is None && search_results is None && backend is None ==> r == Err::<Vec<String>, ConfigError>(
            ConfigError::NoPlayerFlags,
        ) && *final(config) == *old(config),
        !(volume matches Some(v) && v > 100) && search_results != Some(0usize) && !(volume is None
            && search_results is None && backend is None) ==> (r matches Ok(lines) && crate::ai::chat::strings_view(
            lines@,
        ) == player_lines(volume, search_results, opt_view(backend))) && final(config)@ == (ConfigView {
            player: player_applied(old(config)@.player, volume, search_results, opt_view(backend)),
            ..old(config)@
        }),
{
    let mut changed: Vec<String> = Vec::new();
    let ghost c0 = config@;
    match volume {
        Some(v) => {
            if v > 100 {
                return Err(ConfigError::PlayerVolumeOutOfRange);
            }
            config.player.default_volume = v;
            push_number_line(&mut changed, "volume = ", v as u64);
        },
        None => {},
    }
    assert(crate::ai::chat::strings_view(changed@) =~= opt_line("volume = "@, opt_decimal_u8(volume)));
    let ghost l1 = crate::ai::chat::strings_view(changed@);
    match search_results {
        Some(sr) => {
            if sr == 0 {
                return Err(ConfigError::SearchResultsZero);
            }
            config.player.search_results = sr;
            push_number_line(&mut changed, "search_results = ", sr as u64);
        },
        None => {},
    }
    assert(crate::ai::chat::strings_view(changed@) =~= l1 + opt_line(
        "search_results = "@,
        opt_decimal_usize(search_results),
    ));
    let ghost l2 = crate::ai::chat::strings_view(changed@);
    let ghost bv = opt_view(backend);
    match backend {
        Some(b) => {
            push_line(&mut changed, "backend = ", b.as_str());
            config.player.backend = b;
        },
        None => {},
    }
    assert(crate::ai::chat::strings_view(changed@) =~= l2 + opt_line("backend = "@, bv));
    if changed.len() == 0 {
        return Err(ConfigError::NoPlayerFlags);
    }
    Ok(changed)
}

pub open spec fn media_applied(y: YoutubeView, format: Option<Seq<char>>, backend: Option<Seq<char>>, default_source: Option<Seq<char>>) -> YoutubeView {
    YoutubeView {
        prefer_format: match format { Some(f) => f, None => y.prefer_format },
        backend: match backend { Some(b) => b, None => y.backend },
        default_source: match default_source { Some(s) => s, None => y.default_source },
    }
}

pub open spec fn media_lines(format: Option<Seq<char>>, backend: Option<Seq<char>>, default_source: Option<Seq<char>>) -> Seq<Seq<char>> {
    opt_line("prefer_format = "@, format) + opt_line("backend = "@, backend) + opt_line("default_source = "@, default_source)
}

/// `config media set`: apply the given settings; at least one is needed.
pub fn media_set(config: &mut Config, format: Option<String>, backend: Option<String>, default_source: Option<String>) -> (r: Result<Vec<String>, ConfigError>)
    ensures
        format is None && backend is None && default_source is None ==> r == Err::<Vec<String>, ConfigError>(
            ConfigError::NoMediaFlags,
        ) && *final(config) == *old(config),
        !(format is None && backend is None && default_source is None) ==> (r matches Ok(lines)
            && crate::ai::chat::strings_view(lines@) == media_lines(opt_view(format), opt_view(backend), opt_view(default_source)))
            && final(config)@ == (ConfigView {
            youtube: media_applied(old(config)@.youtube, opt_view(format), opt_view(backend), opt_view(default_source)),
            ..old(config)@
        }),
{
    let ghost fv = opt_view(format);
    let ghost bv = opt_view(backend);
    let ghost sv = opt_view(default_source);
    let mut changed: Vec<String> = Vec::new();
    match format {
        Some(f) => {
            push_line(&mut changed, "prefer_format = ", f.as_str());
            config.youtube.prefer_format = f;
        },
        None => {},
    }
    assert(crate::ai::chat::strings_view(changed@) =~= opt_line("prefer_format = "@, fv));
    let ghost l1 = crate::ai::chat::strings_view(changed@);
    match backend {
        Some(b) => {
            push_line(&mut changed, "backend = ", b.as_str());
            config.youtube.backend = b;
        },
        None => {},
    }
    assert(crate::ai::chat::strings_view(changed@) =~= l1 + opt_line("backend = "@, bv));
    let ghost l2 = crate::ai::chat::strings_view(changed@);
    match default_source {
        Some(s) => {
            push_line(&mut changed, "default_source = ", s.as_str());
            config.youtube.default_source = s;
        },
        None => {},
    }
    assert(crate::ai::chat::strings_view(changed@) =~= l2 + opt_line("default_source = "@, sv));
    if changed.len() == 0 {
        return Err(ConfigError::NoMediaFlags);
    }
    Ok(changed)
}

pub open spec fn ai_applied(
    a: AiView,
    provider: Option<Seq<char>>,
    model: Option<Seq<char>>,
    api_key: Option<Seq<char>>,
    api_key_env: Option<Seq<char>>,
    base_url: Option<Seq<char>>,
) -> AiView {
    AiView {
        provider: match provider { Some(p) => p, None => a.provider },
        model: match model { Some(m) => m, None => a.model },
        api_key: match api_key { Some(k) => Some(k), None => a.api_key },
        api_key_env: match api_key_env { Some(e) => e, None => a.api_key_env },
        base_url: match base_url { Some(u) => Some(u), None => a.base_url },
        ..a
    }
}

pub open spec fn ai_lines(
    provider: Option<Seq<char>>,
    model: Option<Seq<char>>,
    api_key: Option<Seq<char>>,
    api_key_env: Option<Seq<char>>,
    base_url: Option<Seq<char>>,
) -> Seq<Seq<char>> {
    opt_line("provider = "@, provider) + opt_line("model = "@, model) + (if api_key is Some {
        seq!["api_key = ***"@]
    } else {
        Seq::empty()
    }) + opt_line("api_key_env = "@, api_key_env) + opt_line("base_url = "@, base_url)
}

/// `config ai set`: apply the given settings to the AI section, creating it
/// with its defaults first; at least one setting is needed. The key itself
/// is never echoed.
pub fn ai_set(
    config: &mut Config,
    provider: Option<String>,
    model: Option<String>,
    api_key: Option<String>,
    api_key_env: Option<String>,
    base_url: Option<String>,
) -> (r: Result<Vec<String>, ConfigError>)
    ensures
        final(config)@ == with_ai(
            old(config)@,
            ai_applied(
                ai_or_default(old(config)@),
                opt_view(provider),
                opt_view(model),
                opt_view(api_key),
                opt_view(api_key_env),
                opt_view(base_url),
            ),
        ),
        provider is None && model is None && api_key is None && api_key_env is None && base_url is None ==> r
            == Err::<Vec<String>, ConfigError>(ConfigError::NoAiFlags),
        !(provider is None && model is None && api_key is None && api_key_env is None && base_url is None) ==> (r matches Ok(
            lines,
        ) && crate::ai::chat::strings_view(lines@) == ai_lines(
            opt_view(provider),
            opt_view(model),
            opt_view(api_key),
            opt_view(api_key_env),
            opt_view(base_url),
        )),
{
    let ghost pv = opt_view(provider);
    let ghost mv = opt_view(model);
    let ghost kv = opt_view(api_key);
    let ghost ev = opt_view(api_key_env);
    let ghost uv = opt_view(base_url);
    ensure_ai(config);
    let ghost start = config@;
    let mut changed: Vec<String> = Vec::new();
    match &mut config.ai {
        Some(a) => {
            match provider {
                Some(p) => {
                    push_line(&mut changed, "provider = ", p.as_str());
                    a.provider = p;
                },
                None => {},
            }
            let ghost l1 = crate::ai::chat::strings_view(changed@);
            assert(l1 =~= opt_line("provider = "@, pv));
            match model {
                Some(m) => {
                    push_line(&mut changed, "model = ", m.as_str());
                    a.model = m;
                },
                None => {},
            }
            let ghost l2 = crate::ai::chat::strings_view(changed@);
            assert(l2 =~= l1 + opt_line("model = "@, mv));
            let had_key = api_key.is_some();
            match api_key {
                Some(k) => {
                    push_line(&mut changed, "api_key = ***", "");
                    a.api_key = Some(k);
                },
                None => {},
            }
            proof {
                reveal_strlit("");
            }
            let ghost l3 = crate::ai::chat::strings_view(changed@);
            assert(l3 =~= l2 + (if had_key { seq!["api_key = ***"@] } else { Seq::empty() }));
            match api_key_env {
                Some(e) => {
                    push_line(&mut changed, "api_key_env = ", e.as_str());
                    a.api_key_env = e;
                },
                None => {},
            }
            let ghost l4 = crate::ai::chat::strings_view(changed@);
            assert(l4 =~= l3 + opt_line("api_key_env = "@, ev));
            match base_url {
                Some(u) => {
                    push_line(&mut changed, "base_url = ", u.as_str());
                    a.base_url = Some(u);
                },
                None => {},
            }
            assert(crate::ai::chat::strings_view(changed@) =~= l4 + opt_line("base_url = "@, uv));
        },
        None => {},
    }
    if changed.len() == 0 {
        return Err(ConfigError::NoAiFlags);
    }
    Ok(changed)
}

// ── Profiles ────────────────────────────────────────────────────────────

/// The first position from `i` on of the profile named `name`.
pub open spec fn profile_pos(ps: Seq<(Seq<char>, ProfileView)>, name: Seq<char>, i: int) -> Option<int>
    decreases ps.len() - i,
{
    if i < 0 || i >= ps.len() {
        None
    } else if ps[i].0 == name {
        Some(i)
    } else {
        profile_pos(ps, name, i + 1)
    }
}

/// No two profiles share a name.
pub open spec fn names_unique(ps: Seq<(Seq<char>, ProfileView)>) -> bool {
    forall|i: int, j: int| 0 <= i < j < ps.len() ==> ps[i].0 != ps[j].0
}

proof fn lemma_profile_pos(ps: Seq<(Seq<char>, ProfileView)>, name: Seq<char>, i: int)
    requires
        0 <= i <= ps.len(),
    ensures
        profile_pos(ps, name, i) matches Some(k) ==> i <= k < ps.len() && ps[k].0 == name && forall|j: int|
            i <= j < k ==> ps[j].0 != name,
        profile_pos(ps, name, i) is None ==> forall|j: int| i <= j < ps.len() ==> ps[j].0 != name,
    decreases ps.len() - i,
{
    if i < ps.len() && ps[i].0 != name {
        lemma_profile_pos(ps, name, i + 1);
    }
}

/// The given settings over those of `p`.
pub open spec fn profile_merged(
    p: ProfileView,
    provider: Option<Seq<char>>,
    model: Option<Seq<char>>,
    api_key: Option<Seq<char>>,
    api_key_env: Option<Seq<char>>,
    base_url: Option<Seq<char>>,
) -> ProfileView {
    ProfileView {
        provider: match provider { Some(x) => Some(x), None => p.provider },
        model: match model { Some(x) => Some(x), None => p.model },
        api_key: match api_key { Some(x) => Some(x), None => p.api_key },
        api_key_env: match api_key_env { Some(x) => Some(x), None => p.api_key_env },
        base_url: match base_url { Some(x) => Some(x), None => p.base_url },
    }
}

pub open spec fn empty_profile() -> ProfileView {
    ProfileView { provider: None, model: None, api_key: None, api_key_env: None, base_url: None }
}

/// The profiles after `add-profile`: the named profile takes the given
/// settings over its own, or is appended with them when it is new.
pub open spec fn profiles_upserted(
    ps: Seq<(Seq<char>, ProfileView)>,
    name: Seq<char>,
    provider: Option<Seq<char>>,
    model: Option<Seq<char>>,
    api_key: Option<Seq<char>>,
    api_key_env: Option<Seq<char>>,
    base_url: Option<Seq<char>>,
) -> Seq<(Seq<char>, ProfileView)> {
    match profile_pos(ps, name, 0) {
        Some(i) => ps.update(i, (name, profile_merged(ps[i].1, provider, model, api_key, api_key_env, base_url))),
        None => ps.push((name, profile_merged(empty_profile(), provider, model, api_key, api_key_env, base_url))),
    }
}

fn find_profile(ps: &Vec<(String, AiProfile)>, name: &str) -> (r: Option<usize>)
    ensures
        r matches Some(i) ==> profile_pos(profiles_view(ps@), name@, 0) == Some(i as int) && i < ps@.len(),
        r is None ==> profile_pos(profiles_view(ps@), name@, 0) is None,
{
    let ghost pv = profiles_view(ps@);
    let n = chars_of(name);
    let mut i: usize = 0;
    while i < ps.len()
        invariant
            pv == profiles_view(ps@),
            n@ == name@,
            i <= ps@.len(),
            profile_pos(pv, name@, 0) == profile_pos(pv, name@, i as int),
        decreases ps@.len() - i,
    {
        if chars_eq(&n, ps[i].0.as_str()) {
            assert(pv[i as int].0 == name@);
            return Some(i);
        }
        i = i + 1;
    }
    None
}

fn merge_opt(given: Option<String>, current: &Option<String>) -> (r: Option<String>)
    ensures
        opt_view(r) == match opt_view(given) {
            Some(x) => Some(x),
            None => opt_view(*current),
        },
{
    match given {
        Some(g) => Some(g),
        None => opt_owned(current),
    }
}

/// `config ai add-profile`: create the named profile or update it (the AI
/// section is created with its defaults first). Names stay unique.
pub fn add_profile(
    config: &mut Config,
    name: &str,
    provider: Option<String>,
    model: Option<String>,
    api_key: Option<String>,
    api_key_env: Option<String>,
    base_url: Option<String>,
)
    ensures
        final(config)@ == with_ai(
            old(config)@,
            AiView {
                profiles: profiles_upserted(
                    ai_or_default(old(config)@).profiles,
                    name@,
                    opt_view(provider),
                    opt_view(model),
                    opt_view(api_key),
                    opt_view(api_key_env),
                    opt_view(base_url),
                ),
                ..ai_or_default(old(config)@)
            },
        ),
        names_unique(ai_or_default(old(config)@).profiles) ==> names_unique(final(config)@.ai->0.profiles),
{
    let ghost pv = opt_view(provider);
    let ghost mv = opt_view(model);
    let ghost kv = opt_view(api_key);
    let ghost ev = opt_view(api_key_env);
    let ghost uv = opt_view(base_url);
    ensure_ai(config);
    let ghost before = config@.ai->0;
    match config.ai.take() {
        Some(mut a) => {
            let ghost ps = profiles_view(a.profiles@);
            assert(ps == before.profiles);
            match find_profile(&a.profiles, name) {
                Some(i) => {
                    proof {
                        lemma_profile_pos(ps, name@, 0);
                    }
                    let cur = &a.profiles[i].1;
                    let merged = AiProfile {
                        provider: merge_opt(provider, &cur.provider),
                        model: merge_opt(model, &cur.model),
                        api_key: merge_opt(api_key, &cur.api_key),
                        api_key_env: merge_opt(api_key_env, &cur.api_key_env),
                        base_url: merge_opt(base_url, &cur.base_url),
                    };
                    a.profiles.set(i, (owned(name), merged));
                    let ghost qs = profiles_view(a.profiles@);
                    assert(qs =~= ps.update(i as int, (name@, profile_merged(ps[i as int].1, pv, mv, kv, ev, uv))));
                    proof {
                        if names_unique(ps) {
                            assert forall|x: int, y: int| 0 <= x < y < qs.len() implies qs[x].0 != qs[y].0 by {
                                if x == i {
                                    assert(qs[x].0 == ps[x].0);
                                } else {
                                    assert(qs[x] == ps[x]);
                                }
                                if y == i {
                                    assert(qs[y].0 == ps[y].0);
                                } else {
                                    assert(qs[y] == ps[y]);
                                }
                                assert(ps[x].0 != ps[y].0);
                            }
                        }
                    }
                },
                None => {
                    let fresh = AiProfile { provider, model, api_key, api_key_env, base_url };
                    a.profiles.push((owned(name), fresh));
                    let ghost qs = profiles_view(a.profiles@);
                    assert(qs =~= ps.push((name@, profile_merged(empty_profile(), pv, mv, kv, ev, uv))));
                    proof {
                        lemma_profile_pos(ps, name@, 0);
                        if names_unique(ps) {
                            assert forall|x: int, y: int| 0 <= x < y < qs.len() implies qs[x].0 != qs[y].0 by {
                                assert(qs[x] == ps[x]);
                                if y < ps.len() {
                                    assert(qs[y] == ps[y]);
                                    assert(ps[x].0 != ps[y].0);
                                }
                            }
                        }
                    }
                },
            }
            config.ai = Some(a);
        },
        None => {},
    }
}

/// `config ai remove-profile`: drop the named profile.
pub fn remove_profile(config: &mut Config, name: &str) -> (r: Result<(), ConfigError>)
    ensures
        old(config)@.ai is None ==> r == Err::<(), ConfigError>(ConfigError::AiNotConfigured) && *final(config)
            == *old(config),
        old(config)@.ai matches Some(a) ==> match profile_pos(a.profiles, name@, 0) {
            None => (r matches Err(ConfigError::ProfileNotFound(n)) && n@ == name@) && final(config)@ == old(config)@,
            Some(i) => r is Ok && final(config)@ == with_ai(old(config)@, AiView { profiles: a.profiles.remove(i), ..a })
                && (names_unique(a.profiles) ==> profile_pos(a.profiles.remove(i), name@, 0) is None),
        },
{
    match config.ai.take() {
        None => Err(ConfigError::AiNotConfigured),
        Some(mut a) => {
            let ghost ps = profiles_view(a.profiles@);
            let result = match find_profile(&a.profiles, name) {
                None => Err(ConfigError::ProfileNotFound(owned(name))),
                Some(i) => {
                    a.profiles.remove(i);
                    assert(profiles_view(a.profiles@) =~= ps.remove(i as int));
                    proof {
                        lemma_profile_pos(ps, name@, 0);
                        let qs = ps.remove(i as int);
                        lemma_profile_pos(qs, name@, 0);
                        if names_unique(ps) {
                            match profile_pos(qs, name@, 0) {
                                Some(k) => {
                                    if k < i {
                                        assert(qs[k] == ps[k]);
                                        assert(ps[k].0 != ps[i as int].0);
                                    } else {
                                        assert(qs[k] == ps[k + 1]);
                                        assert(ps[i as int].0 != ps[k + 1].0);
                                    }
                                },
                                None => {},
                            }
                        }
                    }
                    Ok(())
                },
            };
            config.ai = Some(a);
            result
        },
    }
}

// ── Key status ──────────────────────────────────────────────────────────

/// Where the API key of a section or profile comes from, as `config` shows
/// it.
#[derive(Debug, PartialEq, Eq)]
pub enum KeyStatus {
    /// A key is configured; the first bytes of it.
    Inline(String),
    /// The key variable is configured empty: the provider needs no key.
    NoKeyNeeded,
    /// The named environment variable holds a key; the first bytes of it.
    ViaEnv(String, String),
    NotSet,
}

/// The first `n` bytes of `s` (all of it when shorter).
pub open spec fn byte_prefix(s: Seq<char>, n: nat) -> Seq<char> {
    if encode_utf8(s).len() <= n {
        s
    } else {
        decode_utf8(encode_utf8(s).subrange(0, n as int))
    }
}

/// The first `n` bytes can be cut off without splitting a character.
pub open spec fn cuttable(s: Seq<char>, n: nat) -> bool {
    encode_utf8(s).len() <= n || is_char_boundary(encode_utf8(s), n as int)
}

fn prefix_of(s: &str, n: usize) -> (r: String)
    requires
        cuttable(s@, n as nat),
    ensures
        r@ == byte_prefix(s@, n as nat),
{
    broadcast use vstd::utf8::encode_utf8_decode_utf8;
    if s.as_bytes().len() <= n {
        owned(s)
    } else {
        let (head, _) = s.split_at(n);
        assert(encode_utf8(head@) == encode_utf8(s@).subrange(0, n as int));
        proof {
            vstd::utf8::encode_utf8_decode_utf8(head@);
        }
        owned(head)
    }
}

/// The last `n` bytes of `s` (all of it when shorter).
pub open spec fn byte_suffix(s: Seq<char>, n: nat) -> Seq<char> {
    let b = encode_utf8(s);
    if b.len() <= n {
        s
    } else {
        decode_utf8(b.subrange(b.len() - n, b.len() as int))
    }
}

/// The last `n` bytes can be taken without splitting a character.
pub open spec fn suffix_cuttable(s: Seq<char>, n: nat) -> bool {
    encode_utf8(s).len() <= n || is_char_boundary(encode_utf8(s), encode_utf8(s).len() - n)
}

fn suffix_of(s: &str, n: usize) -> (r: String)
    requires
        suffix_cuttable(s@, n as nat),
    ensures
        r@ == byte_suffix(s@, n as nat),
{
    broadcast use vstd::utf8::encode_utf8_decode_utf8;
    let len = s.as_bytes().len();
    if len <= n {
        owned(s)
    } else {
        let (_, tail) = s.split_at(len - n);
        assert(encode_utf8(tail@) == encode_utf8(s@).subrange(len - n, len as int));
        proof {
            vstd::utf8::encode_utf8_decode_utf8(tail@);
        }
        owned(tail)
    }
}

/// How the setup shows a pasted key: its first six bytes, `...`, and its
/// last four bytes.
pub fn masked_key(key: &str) -> (r: String)
    requires
        cuttable(key@, 6),
        suffix_cuttable(key@, 4),
    ensures
        r@ == byte_prefix(key@, 6) + "..."@ + byte_suffix(key@, 4),
{
    let head = prefix_of(key, 6);
    let tail = suffix_of(key, 4);
    let mut out = chars_of(head.as_str());
    append_str(&mut out, "...");
    append_str(&mut out, tail.as_str());
    string_of(&out)
}

fn copy_profile(p: &AiProfile) -> (r: AiProfile)
    ensures
        r@ == p@,
{
    AiProfile {
        provider: opt_owned(&p.provider),
        model: opt_owned(&p.model),
        api_key: opt_owned(&p.api_key),
        api_key_env: opt_owned(&p.api_key_env),
        base_url: opt_owned(&p.base_url),
    }
}

fn copy_profiles(ps: &Vec<(String, AiProfile)>) -> (r: Vec<(String, AiProfile)>)
    ensures
        profiles_view(r@) == profiles_view(ps@),
{
    let mut out: Vec<(String, AiProfile)> = Vec::new();
    let mut i: usize = 0;
    while i < ps.len()
        invariant
            i <= ps@.len(),
            out@.len() == i,
            forall|k: int| 0 <= k < i ==> (#[trigger] out@[k]).0@ == ps@[k].0@ && out@[k].1@ == ps@[k].1@,
        decreases ps@.len() - i,
    {
        out.push((owned(ps[i].0.as_str()), copy_profile(&ps[i].1)));
        i = i + 1;
    }
    assert(profiles_view(out@) =~= profiles_view(ps@));
    out
}

/// The AI section the setup saves as the default: the chosen settings, no
/// Ollama host, and the profiles of the section it replaces.
pub fn setup_ai_section(
    provider: String,
    model: String,
    api_key: Option<String>,
    api_key_env: Option<String>,
    base_url: Option<String>,
    current: &Option<AiConfig>,
) -> (r: AiConfig)
    ensures
        r@ == (AiView {
            provider: provider@,
            model: model@,
            api_key_env: match api_key_env {
                Some(e) => e@,
                None => Seq::<char>::empty(),
            },
            ollama_host: None,
            api_key: opt_view(api_key),
            base_url: opt_view(base_url),
            profiles: match *current {
                Some(a) => a@.profiles,
                None => Seq::empty(),
            },
        }),
{
    let env = match api_key_env {
        Some(e) => e,
        None => String::new(),
    };
    let profiles = match current {
        Some(a) => copy_profiles(&a.profiles),
        None => Vec::new(),
    };
    let r = AiConfig { provider, model, api_key_env: env, ollama_host: None, api_key, base_url, profiles };
    assert(profiles_view(r.profiles@) =~= match *current {
        Some(a) => a@.profiles,
        None => Seq::<(Seq<char>, ProfileView)>::empty(),
    });
    r
}

pub open spec fn key_status_kind(api_key: Option<Seq<char>>, api_key_env: Option<Seq<char>>, env_value: Option<Seq<char>>) -> int {
    if api_key matches Some(k) && k.len() > 0 {
        0
    } else if api_key_env matches Some(e) && e.len() == 0 {
        1
    } else if api_key_env is Some && (env_value matches Some(v) && v.len() > 0) {
        2
    } else {
        3
    }
}

/// How the key status reads: set inline, not needed, found in the
/// environment (`env_value` is that variable's value, when it has one), or
/// missing. Keys are shown by their first six bytes.
pub fn format_key_status(api_key: &Option<String>, api_key_env: &Option<String>, env_value: &Option<String>) -> (r: KeyStatus)
    requires
        api_key matches Some(k) ==> cuttable(k@, 6),
        env_value matches Some(v) ==> cuttable(v@, 6),
    ensures
        ({
            let kind = key_status_kind(opt_view(*api_key), opt_view(*api_key_env), opt_view(*env_value));
            &&& kind == 0 ==> (r matches KeyStatus::Inline(p) && p@ == byte_prefix(api_key->0@, 6))
            &&& kind == 1 ==> r is NoKeyNeeded
            &&& kind == 2 ==> (r matches KeyStatus::ViaEnv(var, p) && var@ == api_key_env->0@ && p@ == byte_prefix(
                env_value->0@,
                6,
            ))
            &&& kind == 3 ==> r is NotSet
        }),
{
    match api_key {
        Some(k) => {
            if !k.as_str().is_empty() {
                return KeyStatus::Inline(prefix_of(k.as_str(), 6));
            }
        },
        None => {},
    }
    match api_key_env {
        Some(e) => {
            if e.as_str().is_empty() {
                return KeyStatus::NoKeyNeeded;
            }
            match env_value {
                Some(v) => {
                    if !v.as_str().is_empty() {
                        return KeyStatus::ViaEnv(owned(e.as_str()), prefix_of(v.as_str(), 6));
                    }
                },
                None => {},
            }
        },
        None => {},
    }
    KeyStatus::NotSet
}

impl KeyStatus {
    pub open spec fn text(self) -> Seq<char> {
        match self {
            KeyStatus::Inline(p) => "✅ set ("@ + p@ + "...)"@,
            KeyStatus::NoKeyNeeded => "✅ no key needed"@,
            KeyStatus::ViaEnv(var, p) => "✅ via $"@ + var@ + " ("@ + p@ + "...)"@,
            KeyStatus::NotSet => "⚠️  not set"@,
        }
    }

    /// The status line (the caller colours it: green unless not set).
    pub fn line(&self) -> (r: String)
        ensures
            r@ == self.text(),
    {
        let mut out: Vec<char> = Vec::new();
        match self {
            KeyStatus::Inline(p) => {
                append_str(&mut out, "✅ set (");
                append_str(&mut out, p.as_str());
                append_str(&mut out, "...)");
            },
            KeyStatus::NoKeyNeeded => append_str(&mut out, "✅ no key needed"),
            KeyStatus::ViaEnv(var, p) => {
                append_str(&mut out, "✅ via $");
                append_str(&mut out, var.as_str());
                append_str(&mut out, " (");
                append_str(&mut out, p.as_str());
                append_str(&mut out, "...)");
            },
            KeyStatus::NotSet => append_str(&mut out, "⚠️  not set"),
        }
        string_of(&out)
    }
}

/// What a profile line of `config ai` shows: the profile's provider and
/// model or the section's, its own key, and its key variable or the
/// section's.
pub struct ProfileSettings {
    pub name: String,
    pub provider: String,
    pub model: String,
    pub api_key: Option<String>,
    pub api_key_env: Option<String>,
}

pub fn profile_settings(ai: &AiConfig, i: usize) -> (r: ProfileSettings)
    requires
        i < ai.profiles@.len(),
    ensures
        ({
            let (name, p) = ai@.profiles[i as int];
            &&& r.name@ == name
            &&& r.provider@ == (match p.provider { Some(x) => x, None => ai@.provider })
            &&& r.model@ == (match p.model { Some(x) => x, None => ai@.model })
            &&& opt_view(r.api_key) == p.api_key
            &&& opt_view(r.api_key_env) == (match p.api_key_env { Some(x) => Some(x), None => Some(ai@.api_key_env) })
        }),
{
    let (name, p) = &ai.profiles[i];
    ProfileSettings {
        name: owned(name.as_str()),
        provider: match &p.provider {
            Some(x) => owned(x.as_str()),
            None => owned(ai.provider.as_str()),
        },
        model: match &p.model {
            Some(x) => owned(x.as_str()),
            None => owned(ai.model.as_str()),
        },
        api_key: opt_owned(&p.api_key),
        api_key_env: match &p.api_key_env {
            Some(x) => Some(owned(x.as_str())),
            None => Some(owned(ai.api_key_env.as_str())),
        },
    }
}


// ── AI settings in effect ───────────────────────────────────────────────

/// The AI settings in effect before the environment is consulted: a
/// profile's settings over the section's. `api_key` is `None` when no
/// non-empty key is configured (the key is then read from the variable that
/// `api_key_env` names, when that name is not empty); `base_url` is `None`
/// when the provider's default address applies.
pub struct AiSettings {
    pub provider: String,
    pub model: String,
    pub api_key: Option<String>,
    pub api_key_env: String,
    pub base_url: Option<String>,
}

/// The first of two optional values that is present.
pub open spec fn first_present(a: Option<Seq<char>>, b: Option<Seq<char>>) -> Option<Seq<char>> {
    match a {
        Some(x) => Some(x),
        None => b,
    }
}

/// A value, unless it is empty.
pub open spec fn non_empty(o: Option<Seq<char>>) -> Option<Seq<char>> {
    match o {
        Some(x) => if x.len() > 0 { Some(x) } else { None },
        None => None,
    }
}

pub open spec fn setting_or(o: Option<Seq<char>>, d: Seq<char>) -> Seq<char> {
    match o {
        Some(x) => x,
        None => d,
    }
}

/// Whether `s` holds the settings of section `a` overridden by profile `p`:
/// each setting the profile has wins; the key counts only when non-empty;
/// the address falls back to the Ollama host for the `ollama` provider.
pub open spec fn settings_of(s: AiSettings, a: AiView, p: ProfileView) -> bool {
    let provider = setting_or(p.provider, a.provider);
    &&& s.provider@ == provider
    &&& s.model@ == setting_or(p.model, a.model)
    &&& opt_view(s.api_key) == non_empty(first_present(p.api_key, a.api_key))
    &&& s.api_key_env@ == setting_or(p.api_key_env, a.api_key_env)
    &&& opt_view(s.base_url) == non_empty(
        first_present(
            first_present(p.base_url, a.base_url),
            if provider == "ollama"@ { a.ollama_host } else { None },
        ),
    )
}

fn setting_or_exec(o: &Option<String>, d: &String) -> (r: String)
    ensures
        r@ == setting_or(opt_view(*o), d@),
{
    match o {
        Some(x) => owned(x.as_str()),
        None => owned(d.as_str()),
    }
}

fn first_present_exec(a: &Option<String>, b: &Option<String>) -> (r: Option<String>)
    ensures
        opt_view(r) == first_present(opt_view(*a), opt_view(*b)),
{
    match a {
        Some(x) => Some(owned(x.as_str())),
        None => opt_owned(b),
    }
}

fn non_empty_exec(o: Option<String>) -> (r: Option<String>)
    ensures
        opt_view(r) == non_empty(opt_view(o)),
{
    match o {
        Some(x) => if chars_of(x.as_str()).len() > 0 { Some(x) } else { None },
        None => None,
    }
}

fn settings_for(ai: &AiConfig, p: &AiProfile) -> (r: AiSettings)
    ensures
        settings_of(r, ai@, p@),
{
    let provider = setting_or_exec(&p.provider, &ai.provider);
    let host = if chars_eq(&chars_of(provider.as_str()), "ollama") { opt_owned(&ai.ollama_host) } else { None };
    let url = first_present_exec(&p.base_url, &ai.base_url);
    AiSettings {
        model: setting_or_exec(&p.model, &ai.model),
        api_key: non_empty_exec(first_present_exec(&p.api_key, &ai.api_key)),
        api_key_env: setting_or_exec(&p.api_key_env, &ai.api_key_env),
        base_url: non_empty_exec(first_present_exec(&url, &host)),
        provider,
    }
}

/// The AI settings in effect, through the named profile when one is given.
pub fn resolve_ai(ai: &AiConfig, profile: Option<&str>) -> (r: Result<AiSettings, ConfigError>)
    ensures
        match profile {
            None => r matches Ok(s) && settings_of(s, ai@, empty_profile()),
            Some(name) => match profile_pos(ai@.profiles, name@, 0) {
                None => r matches Err(ConfigError::ProfileNotFound(n)) && n@ == name@,
                Some(i) => r matches Ok(s) && settings_of(s, ai@, ai@.profiles[i].1),
            },
        },
{
    match profile {
        None => {
            let none = AiProfile { provider: None, model: None, api_key: None, api_key_env: None, base_url: None };
            Ok(settings_for(ai, &none))
        },
        Some(name) => match find_profile(&ai.profiles, name) {
            None => Err(ConfigError::ProfileNotFound(owned(name))),
            Some(i) => Ok(settings_for(ai, &ai.profiles[i].1)),
        },
    }
}

/// Which settings win when a profile is in effect: each setting the profile
/// names is its own (its key too, when not empty, whatever key the section
/// holds); a setting it leaves out comes from the section; an empty key
/// counts as no key.
pub proof fn lemma_profile_settings_win(s: AiSettings, a: AiView, p: ProfileView)
    requires
        settings_of(s, a, p),
    ensures
        p.provider matches Some(x) ==> s.provider@ == x,
        p.provider is None ==> s.provider@ == a.provider,
        p.model matches Some(x) ==> s.model@ == x,
        p.model is None ==> s.model@ == a.model,
        p.api_key_env matches Some(x) ==> s.api_key_env@ == x,
        p.api_key_env is None ==> s.api_key_env@ == a.api_key_env,
        p.api_key matches Some(k) ==> (k.len() > 0 ==> opt_view(s.api_key) == Some(k)),
        p.api_key matches Some(k) ==> (k.len() == 0 ==> s.api_key is None),
        p.api_key is None ==> match a.api_key {
            Some(k) => k.len() > 0 ==> opt_view(s.api_key) == Some(k),
            None => s.api_key is None,
        },
        s.api_key matches Some(k) ==> k@.len() > 0,
        p.base_url matches Some(u) ==> (u.len() > 0 ==> opt_view(s.base_url) == Some(u)),
{
}

} // verus!
