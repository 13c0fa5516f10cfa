use vstd::prelude::*;

use crate::player::types::RepeatMode;

verus! {

/// `fav` subcommands.
pub enum FavAction {
    /// List all favorites.
    List,
    /// Add a video URL to favorites.
    Add { url: String },
    /// Remove a video from favorites.
    Remove { video_id: String },
}

/// `queue` subcommands.
pub enum QueueAction {
    /// Show the queue.
    List,
    /// Add a video URL to the queue.
    Add { url: String },
    /// Play the next video in the queue.
    Next,
    /// Clear the queue.
    Clear,
}

/// `playlist` subcommands.
pub enum PlaylistAction {
    Create { name: String },
    List,
    Show { name: String },
    Add { name: String, url: String },
    Remove { name: String, video_id: String },
    Play { name: String },
    Delete { name: String },
}

/// `config` subcommands.
pub enum ConfigAction {
    Ai { action: Option<AiAction>, setup: bool },
    Player { action: Option<PlayerAction> },
    Media { action: Option<MediaAction> },
    /// Set a config key (`config set`).
    SetKey { key: String, value: String },
    Get { key: String },
    Path,
    Reset { force: bool },
}

/// `config ai` subcommands.
pub enum AiAction {
    /// Set the default AI configuration (`config ai set`).
    SetDefault {
        provider: Option<String>,
        model: Option<String>,
        api_key: Option<String>,
        api_key_env: Option<String>,
        base_url: Option<String>,
    },
    AddProfile {
        name: String,
        provider: Option<String>,
        model: Option<String>,
        api_key: Option<String>,
        api_key_env: Option<String>,
        base_url: Option<String>,
    },
    RemoveProfile { name: String },
    ListProfiles,
    Test { profile: Option<String> },
}

/// `config player` subcommands.
pub enum PlayerAction {
    /// Set player settings (`config player set`).
    Update { volume: Option<u8>, search_results: Option<usize>, backend: Option<String> },
}

/// `config media` subcommands.
pub enum MediaAction {
    /// Set media source settings (`config media set`).
    Update { format: Option<String>, backend: Option<String>, default_source: Option<String> },
}

/// The repeat mode given on the command line.
#[derive(Debug, Clone, Copy, PartialEq, Eq, Structural)]
pub enum RepeatArg {
    Off,
    One,
    All,
}

impl RepeatArg {
    pub open spec fn mode(self) -> RepeatMode {
        match self {
            RepeatArg::Off => RepeatMode::Off,
            RepeatArg::One => RepeatMode::One,
            RepeatArg::All => RepeatMode::All,
        }
    }

    /// The player's repeat mode for the argument.
    pub fn to_repeat_mode(self) -> (r: RepeatMode)
        ensures
            r == self.mode(),
    {
        match self {
            RepeatArg::Off => RepeatMode::Off,
            RepeatArg::One => RepeatMode::One,
            RepeatArg::All => RepeatMode::All,
        }
    }
}

/// How `now` prints the current track.
#[derive(Debug, Clone, Copy, PartialEq, Eq, Structural)]
pub enum OutputFormat {
    Pretty,
    Json,
    Oneline,
}

impl OutputFormat {
    pub open spec fn name_text(self) -> Seq<char> {
        match self {
            OutputFormat::Pretty => "pretty"@,
            OutputFormat::Json => "json"@,
            OutputFormat::Oneline => "oneline"@,
        }
    }

    /// The format's name as `now` receives it.
    pub fn as_str(self) -> (r: &'static str)
        ensures
            r@ == self.name_text(),
    {
        match self {
            OutputFormat::Pretty => "pretty",
            OutputFormat::Json => "json",
            OutputFormat::Oneline => "oneline",
        }
    }
}

} // verus!
