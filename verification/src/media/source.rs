use vstd::prelude::*;

use crate::text::{chars_eq, chars_of, contains, contains_exec, lowercase, to_lowercase};

verus! {

/// Where a track comes from.
#[derive(Debug, Clone, Copy, PartialEq, Eq, Structural)]
pub enum Source {
    YouTube,
    SoundCloud,
    YTMusic,
    Bandcamp,
    Generic,
}

impl Default for Source {
    fn default() -> (r: Self)
        ensures
            r == Source::YouTube,
    {
        Source::YouTube
    }
}

/// The sources that support search, in the order the TUI cycles through them.
pub open spec fn searchable_sources() -> Seq<Source> {
    seq![Source::YouTube, Source::SoundCloud, Source::YTMusic]
}

/// The source a lowercased yt-dlp extractor key designates.
pub open spec fn source_of_extractor(key: Seq<char>) -> Source {
    if key == "youtube"@ {
        Source::YouTube
    } else if key == "soundcloud"@ || key == "soundcloudplaylist"@ {
        Source::SoundCloud
    } else if key == "bandcamp"@ || key == "bandcampalbum"@ {
        Source::Bandcamp
    } else if contains(key, "youtubemusic"@) {
        Source::YTMusic
    } else {
        Source::Generic
    }
}

/// The source a lowercased command-line argument names.
pub open spec fn source_of_arg(s: Seq<char>) -> Option<Source> {
    if s == "youtube"@ || s == "yt"@ {
        Some(Source::YouTube)
    } else if s == "soundcloud"@ || s == "sc"@ {
        Some(Source::SoundCloud)
    } else if s == "ytmusic"@ || s == "ytm"@ {
        Some(Source::YTMusic)
    } else if s == "bandcamp"@ || s == "bc"@ {
        Some(Source::Bandcamp)
    } else {
        None
    }
}

impl Source {
    pub open spec fn prefix_text(self) -> Option<Seq<char>> {
        match self {
            Source::YouTube => Some("ytsearch"@),
            Source::SoundCloud => Some("scsearch"@),
            Source::YTMusic => Some("ytmusicsearch"@),
            _ => None,
        }
    }

    pub open spec fn icon_text(self) -> Seq<char> {
        match self {
            Source::YouTube => "▶"@,
            Source::SoundCloud => "☁"@,
            Source::YTMusic => "♫"@,
            Source::Bandcamp => "🎸"@,
            Source::Generic => "🌐"@,
        }
    }

    pub open spec fn display_text(self) -> Seq<char> {
        match self {
            Source::YouTube => "YouTube"@,
            Source::SoundCloud => "SoundCloud"@,
            Source::YTMusic => "YT Music"@,
            Source::Bandcamp => "Bandcamp"@,
            Source::Generic => "Other"@,
        }
    }

    pub open spec fn db_text(self) -> Seq<char> {
        match self {
            Source::YouTube => "youtube"@,
            Source::SoundCloud => "soundcloud"@,
            Source::YTMusic => "ytmusic"@,
            Source::Bandcamp => "bandcamp"@,
            Source::Generic => "generic"@,
        }
    }

    /// The source a stored database string designates.
    pub open spec fn from_db_text(s: Seq<char>) -> Source {
        if s == "youtube"@ {
            Source::YouTube
        } else if s == "soundcloud"@ {
            Source::SoundCloud
        } else if s == "ytmusic"@ {
            Source::YTMusic
        } else if s == "bandcamp"@ {
            Source::Bandcamp
        } else {
            Source::Generic
        }
    }

    /// The yt-dlp search prefix, or `None` if search is not supported.
    pub fn search_prefix(&self) -> (r: Option<&'static str>)
        ensures
            r is Some == self.prefix_text() is Some,
            r matches Some(p) ==> p@ == self.prefix_text()->0,
    {
        match self {
            Source::YouTube => Some("ytsearch"),
            Source::SoundCloud => Some("scsearch"),
            Source::YTMusic => Some("ytmusicsearch"),
            _ => None,
        }
    }

    /// All sources that support search (for cycling in the TUI).
    pub fn searchable() -> (r: Vec<Source>)
        ensures
            r@ == searchable_sources(),
    {
        let r = vec![Source::YouTube, Source::SoundCloud, Source::YTMusic];
        assert(r@ == searchable_sources());
        r
    }

    /// Detect the source from yt-dlp's `extractor_key` JSON field.
    pub fn from_extractor_key(key: &str) -> (r: Self)
        ensures
            r == source_of_extractor(lowercase(key@)),
    {
        let lower = to_lowercase(key);
        let l = chars_of(lower.as_str());
        if chars_eq(&l, "youtube") {
            Source::YouTube
        } else if chars_eq(&l, "soundcloud") || chars_eq(&l, "soundcloudplaylist") {
            Source::SoundCloud
        } else if chars_eq(&l, "bandcamp") || chars_eq(&l, "bandcampalbum") {
            Source::Bandcamp
        } else if contains_exec(&l, "youtubemusic") {
            Source::YTMusic
        } else {
            Source::Generic
        }
    }

    /// Parse from a command-line string (e.g. `--source youtube`).
    pub fn from_str_arg(s: &str) -> (r: Option<Self>)
        ensures
            r == source_of_arg(lowercase(s@)),
    {
        let lower = to_lowercase(s);
        let l = chars_of(lower.as_str());
        if chars_eq(&l, "youtube") || chars_eq(&l, "yt") {
            Some(Source::YouTube)
        } else if chars_eq(&l, "soundcloud") || chars_eq(&l, "sc") {
            Some(Source::SoundCloud)
        } else if chars_eq(&l, "ytmusic") || chars_eq(&l, "ytm") {
            Some(Source::YTMusic)
        } else if chars_eq(&l, "bandcamp") || chars_eq(&l, "bc") {
            Some(Source::Bandcamp)
        } else {
            None
        }
    }

    /// Display icon for TUI/CLI.
    pub fn icon(&self) -> (r: &'static str)
        ensures
            r@ == self.icon_text(),
    {
        match self {
            Source::YouTube => "▶",
            Source::SoundCloud => "☁",
            Source::YTMusic => "♫",
            Source::Bandcamp => "🎸",
            Source::Generic => "🌐",
        }
    }

    /// Display name for labels.
    pub fn display_name(&self) -> (r: &'static str)
        ensures
            r@ == self.display_text(),
    {
        match self {
            Source::YouTube => "YouTube",
            Source::SoundCloud => "SoundCloud",
            Source::YTMusic => "YT Music",
            Source::Bandcamp => "Bandcamp",
            Source::Generic => "Other",
        }
    }

    /// Serialize to a string for database storage.
    pub fn as_db_str(&self) -> (r: &'static str)
        ensures
            r@ == self.db_text(),
    {
        match self {
            Source::YouTube => "youtube",
            Source::SoundCloud => "soundcloud",
            Source::YTMusic => "ytmusic",
            Source::Bandcamp => "bandcamp",
            Source::Generic => "generic",
        }
    }

    /// Parse from a stored database string (exact match, no case folding).
    pub fn from_db_str(s: &str) -> (r: Self)
        ensures
            r == Source::from_db_text(s@),
    {
        let l = chars_of(s);
        if chars_eq(&l, "youtube") {
            Source::YouTube
        } else if chars_eq(&l, "soundcloud") {
            Source::SoundCloud
        } else if chars_eq(&l, "ytmusic") {
            Source::YTMusic
        } else if chars_eq(&l, "bandcamp") {
            Source::Bandcamp
        } else {
            Source::Generic
        }
    }
}

/// Storing a source and reading it back gives the same source.
pub proof fn lemma_db_roundtrip(s: Source)
    ensures
        Source::from_db_text(s.db_text()) == s,
{
    reveal_strlit("youtube");
    reveal_strlit("soundcloud");
    reveal_strlit("ytmusic");
    reveal_strlit("bandcamp");
    reveal_strlit("generic");
    assert("youtube"@[0] != "generic"@[0]);
    assert("youtube"@[0] != "ytmusic"@[1]);
    assert("youtube"@[1] != "ytmusic"@[1]);
    assert("soundcloud"@.len() != "youtube"@.len());
}

/// A source supports search exactly when it is one of the searchable sources.
pub proof fn lemma_searchable_have_prefix(s: Source)
    ensures
        s.prefix_text() is Some <==> searchable_sources().contains(s),
{
    if searchable_sources().contains(s) {
        let i = choose|i: int| 0 <= i < 3 && searchable_sources()[i] == s;
    } else {
        assert(searchable_sources()[0] == Source::YouTube);
        assert(searchable_sources()[1] == Source::SoundCloud);
        assert(searchable_sources()[2] == Source::YTMusic);
    }
}

} // verus!
