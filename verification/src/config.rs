use vstd::prelude::*;

use crate::text::{chars_of, string_of};
use vstd::string::StringSliceAdditionalSpecFns;
use directories::ProjectDirs;

verus! {

#[verifier::external_type_specification]
#[verifier::external_body]
pub struct ExProjectDirs(ProjectDirs);


/// The user's configuration: player, media backend and optional AI settings.
#[derive(Debug, Clone)]
pub struct Config {
    pub player: PlayerConfig,
    pub youtube: YoutubeConfig,
    pub ai: Option<AiConfig>,
}

#[derive(Debug, Clone)]
pub struct PlayerConfig {
    pub backend: String,
    pub default_volume: u8,
    pub search_results: usize,
}

/// The media backend section (`[youtube]`, also addressed as `media.*`).
#[derive(Debug, Clone)]
pub struct YoutubeConfig {
    pub backend: String,
    pub prefer_format: String,
    /// The source searches use when none is named.
    pub default_source: String,
}

/// The AI section. The key is taken from `api_key` when set, else from the
/// environment variable named by `api_key_env` (empty: no key needed).
#[derive(Debug, Clone)]
pub struct AiConfig {
    pub provider: String,
    pub model: String,
    pub api_key_env: String,
    pub ollama_host: Option<String>,
    pub api_key: Option<String>,
    pub base_url: Option<String>,
    /// Named profiles, each overriding some of the settings above; a name
    /// occurs at most once.
    pub profiles: Vec<(String, AiProfile)>,
}

/// A named AI profile: the settings it overrides.
#[derive(Debug, Clone)]
pub struct AiProfile {
    pub provider: Option<String>,
    pub model: Option<String>,
    pub api_key: Option<String>,
    pub api_key_env: Option<String>,
    pub base_url: Option<String>,
}

/// A player section as plain values.
pub struct PlayerView {
    pub backend: Seq<char>,
    pub default_volume: u8,
    pub search_results: usize,
}

/// A media backend section as plain values.
pub struct YoutubeView {
    pub backend: Seq<char>,
    pub prefer_format: Seq<char>,
    pub default_source: Seq<char>,
}

/// An AI profile as plain values.
pub struct ProfileView {
    pub provider: Option<Seq<char>>,
    pub model: Option<Seq<char>>,
    pub api_key: Option<Seq<char>>,
    pub api_key_env: Option<Seq<char>>,
    pub base_url: Option<Seq<char>>,
}

/// An AI section as plain values.
pub struct AiView {
    pub provider: Seq<char>,
    pub model: Seq<char>,
    pub api_key_env: Seq<char>,
    pub ollama_host: Option<Seq<char>>,
    pub api_key: Option<Seq<char>>,
    pub base_url: Option<Seq<char>>,
    pub profiles: Seq<(Seq<char>, ProfileView)>,
}

/// A whole configuration as plain values.
pub struct ConfigView {
    pub player: PlayerView,
    pub youtube: YoutubeView,
    pub ai: Option<AiView>,
}

pub open spec fn opt_view(o: Option<String>) -> Option<Seq<char>> {
    match o {
        Some(s) => Some(s@),
        None => None,
    }
}

impl View for PlayerConfig {
    type V = PlayerView;

    open spec fn view(&self) -> PlayerView {
        PlayerView { backend: self.backend@, default_volume: self.default_volume, search_results: self.search_results }
    }
}

impl View for YoutubeConfig {
    type V = YoutubeView;

    open spec fn view(&self) -> YoutubeView {
        YoutubeView { backend: self.backend@, prefer_format: self.prefer_format@, default_source: self.default_source@ }
    }
}

impl View for AiProfile {
    type V = ProfileView;

    open spec fn view(&self) -> ProfileView {
        ProfileView {
            provider: opt_view(self.provider),
            model: opt_view(self.model),
            api_key: opt_view(self.api_key),
            api_key_env: opt_view(self.api_key_env),
            base_url: opt_view(self.base_url),
        }
    }
}

pub open spec fn profiles_view(ps: Seq<(String, AiProfile)>) -> Seq<(Seq<char>, ProfileView)> {
    Seq::new(ps.len(), |i: int| (ps[i].0@, ps[i].1@))
}

impl View for AiConfig {
    type V = AiView;

    open spec fn view(&self) -> AiView {
        AiView {
            provider: self.provider@,
            model: self.model@,
            api_key_env: self.api_key_env@,
            ollama_host: opt_view(self.ollama_host),
            api_key: opt_view(self.api_key),
            base_url: opt_view(self.base_url),
            profiles: profiles_view(self.profiles@),
        }
    }
}

impl View for Config {
    type V = ConfigView;

    open spec fn view(&self) -> ConfigView {
        ConfigView {
            player: self.player@,
            youtube: self.youtube@,
            ai: match self.ai {
                Some(a) => Some(a@),
                None => None,
            },
        }
    }
}

pub fn default_ai_provider() -> (r: String)
    ensures
        r@ == "openai"@,
{
    string_of(&chars_of("openai"))
}

pub fn default_ai_model() -> (r: String)
    ensures
        r@ == "gpt-4o-mini"@,
{
    string_of(&chars_of("gpt-4o-mini"))
}

pub fn default_api_key_env() -> (r: String)
    ensures
        r@ == "OPENAI_API_KEY"@,
{
    string_of(&chars_of("OPENAI_API_KEY"))
}

pub fn default_player_backend() -> (r: String)
    ensures
        r@ == "mpv"@,
{
    string_of(&chars_of("mpv"))
}

pub fn default_volume() -> (r: u8)
    ensures
        r == 80,
{
    80
}

pub fn default_search_results() -> (r: usize)
    ensures
        r == 5,
{
    5
}

pub fn default_youtube_backend() -> (r: String)
    ensures
        r@ == "yt-dlp"@,
{
    string_of(&chars_of("yt-dlp"))
}

pub fn default_audio_format() -> (r: String)
    ensures
        r@ == "m4a"@,
{
    string_of(&chars_of("m4a"))
}

pub fn default_search_source() -> (r: String)
    ensures
        r@ == "youtube"@,
{
    string_of(&chars_of("youtube"))
}

impl Default for PlayerConfig {
    fn default() -> (r: Self)
        ensures
            r.backend@ == "mpv"@,
            r.default_volume == 80,
            r.search_results == 5,
    {
        PlayerConfig {
            backend: default_player_backend(),
            default_volume: default_volume(),
            search_results: default_search_results(),
        }
    }
}

impl Default for YoutubeConfig {
    fn default() -> (r: Self)
        ensures
            r.backend@ == "yt-dlp"@,
            r.prefer_format@ == "m4a"@,
            r.default_source@ == "youtube"@,
    {
        YoutubeConfig {
            backend: default_youtube_backend(),
            prefer_format: default_audio_format(),
            default_source: default_search_source(),
        }
    }
}

impl Default for Config {
    fn default() -> (r: Self)
        ensures
            r.player.backend@ == "mpv"@,
            r.player.default_volume == 80,
            r.player.search_results == 5,
            r.youtube.backend@ == "yt-dlp"@,
            r.youtube.prefer_format@ == "m4a"@,
            r.youtube.default_source@ == "youtube"@,
            r.ai is None,
    {
        Config { player: PlayerConfig::default(), youtube: YoutubeConfig::default(), ai: None }
    }
}

/// Calls `directories::ProjectDirs::from("", "", application)`. What comes
/// back depends on the environment (the home directory and XDG variables),
/// so nothing is stated of it.
#[verifier::external_body]
fn project_dirs(application: &str) -> (r: Option<ProjectDirs>) {
    ProjectDirs::from("", "", application)
}

/// Calls `ProjectDirs::config_dir` and hands back the directory's path as
/// the platform encodes it (`OsStr::as_encoded_bytes`: on Unix, the bytes of
/// the path as they stand). The directory depends on the platform and the
/// environment, so nothing is stated of it.
#[verifier::external_body]
fn project_config_dir(dirs: &ProjectDirs) -> (r: Vec<u8>) {
    dirs.config_dir().as_os_str().as_encoded_bytes().to_vec()
}

/// The name the application's per-user directories are named after.
pub open spec fn app_name() -> Seq<char> {
    "aux"@
}

/// The application name handed to `ProjectDirs::from` for its configuration
/// and data directories.
pub fn app_dir_name() -> (r: &'static str)
    ensures
        r@ == app_name(),
{
    "aux"
}

/// The byte `/` that separates the parts of a path.
pub const PATH_SEPARATOR: u8 = 47;

/// The name of the configuration file, as bytes.
pub open spec fn config_file_name() -> Seq<u8> {
    "config.toml".spec_bytes()
}

/// `name` inside the directory `dir`, both as path bytes, as `Path::join`
/// forms it for a relative name with the `/` separator: a `/` goes between
/// them unless `dir` is empty or already ends with one.
pub open spec fn joined_path(dir: Seq<u8>, name: Seq<u8>) -> Seq<u8> {
    if dir.len() == 0 || dir.last() == PATH_SEPARATOR {
        dir + name
    } else {
        dir + seq![PATH_SEPARATOR] + name
    }
}

/// The configuration file inside the configuration directory `dir`, both
/// as path bytes.
pub fn config_file_in(dir: &[u8]) -> (r: Vec<u8>)
    ensures
        r@ == joined_path(dir@, config_file_name()),
{
    let mut out: Vec<u8> = vstd::slice::slice_to_vec(dir);
    let n = out.len();
    if n > 0 && out[n - 1] != PATH_SEPARATOR {
        out.push(PATH_SEPARATOR);
    }
    let ghost before = out@;
    out.extend_from_slice("config.toml".as_bytes());
    assert(out@ =~= before + config_file_name());
    out
}

impl Config {
    /// The per-user configuration directory of the application (named after
    /// `app_name`), as path bytes, when the platform has one. It depends on
    /// the environment, so nothing is stated of it.
    pub fn config_dir() -> (r: Option<Vec<u8>>) {
        match project_dirs(app_dir_name()) {
            Some(d) => Some(project_config_dir(&d)),
            None => None,
        }
    }

    /// `config.toml` inside the configuration directory, when there is one.
    pub fn config_path() -> (r: Option<Vec<u8>>)
        ensures
            r matches Some(p) ==> exists|d: Seq<u8>| p@ == joined_path(d, config_file_name()),
    {
        match Self::config_dir() {
            Some(d) => Some(config_file_in(d.as_slice())),
            None => None,
        }
    }
}

} // verus!
