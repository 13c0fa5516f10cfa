use vstd::prelude::*;

use super::app::Panel;

verus! {

/// The key badges of the bottom bar for a panel: pairs of key and action.
/// `items_view` tells whether the Playlists panel shows one playlist's items.
pub open spec fn panel_hints(panel: Panel, items_view: bool) -> Seq<(Seq<char>, Seq<char>)> {
    match panel {
        Panel::Search => seq![("Enter"@, "search"@), ("Tab"@, "panels"@), ("?"@, "help"@), ("q"@, "quit"@)],
        Panel::Results => seq![
            ("Enter"@, "play"@),
            ("↑↓"@, "nav"@),
            ("←→"@, "page"@),
            ("a"@, "queue"@),
            ("f"@, "fav"@),
            ("l"@, "playlist"@),
            ("Tab"@, "panel"@),
        ],
        Panel::Lyrics => seq![("⇧↑↓"@, "scroll"@), ("0"@, "auto"@), ("Tab"@, "panel"@), ("Esc"@, "back"@)],
        Panel::Queue => seq![
            ("Enter"@, "play"@),
            ("↑↓"@, "nav"@),
            ("d"@, "remove"@),
            ("l"@, "playlist"@),
            ("Tab"@, "panel"@),
        ],
        Panel::Favorites => seq![
            ("Enter"@, "play"@),
            ("↑↓"@, "nav"@),
            ("d"@, "unfav"@),
            ("l"@, "playlist"@),
            ("Tab"@, "panel"@),
        ],
        Panel::History => seq![("Enter"@, "replay"@), ("↑↓"@, "nav"@), ("l"@, "playlist"@), ("Tab"@, "panel"@)],
        Panel::Playlists => if items_view {
            seq![("Enter"@, "play"@), ("↑↓"@, "nav"@), ("d"@, "remove"@), ("Esc"@, "back"@)]
        } else {
            seq![("Enter"@, "view"@), ("↑↓"@, "nav"@), ("n"@, "new"@), ("d"@, "del"@), ("p"@, "play"@)]
        },
        Panel::Chat => seq![("Enter"@, "send"@), ("↑↓"@, "scroll"@), ("Esc"@, "back"@), ("Tab"@, "panel"@)],
        Panel::Help => seq![("↑↓"@, "scroll"@), ("Esc"@, "back"@)],
    }
}

/// The playback key badges, shown while something plays.
pub open spec fn playback_hints() -> Seq<(Seq<char>, Seq<char>)> {
    seq![
        ("Space"@, "⏯"@),
        ("←→"@, "seek"@),
        ("+/-"@, "vol"@),
        ("]/["@, "spd"@),
        ("e"@, "eq"@),
        ("r"@, "repeat"@),
        ("n"@, "next"@),
        ("f"@, "fav"@),
        ("S"@, "stop"@),
    ]
}

pub open spec fn pair_views(v: Seq<(&'static str, &'static str)>) -> Seq<(Seq<char>, Seq<char>)> {
    Seq::new(v.len(), |i: int| (v[i].0@, v[i].1@))
}

/// The key badges of the bottom bar for a panel.
pub fn panel_key_hints(panel: Panel, items_view: bool) -> (r: Vec<(&'static str, &'static str)>)
    ensures
        pair_views(r@) == panel_hints(panel, items_view),
{
    let r = match panel {
        Panel::Search => vec![("Enter", "search"), ("Tab", "panels"), ("?", "help"), ("q", "quit")],
        Panel::Results => vec![
            ("Enter", "play"),
            ("↑↓", "nav"),
            ("←→", "page"),
            ("a", "queue"),
            ("f", "fav"),
            ("l", "playlist"),
            ("Tab", "panel"),
        ],
        Panel::Lyrics => vec![("⇧↑↓", "scroll"), ("0", "auto"), ("Tab", "panel"), ("Esc", "back")],
        Panel::Queue => vec![("Enter", "play"), ("↑↓", "nav"), ("d", "remove"), ("l", "playlist"), ("Tab", "panel")],
        Panel::Favorites => vec![("Enter", "play"), ("↑↓", "nav"), ("d", "unfav"), ("l", "playlist"), ("Tab", "panel")],
        Panel::History => vec![("Enter", "replay"), ("↑↓", "nav"), ("l", "playlist"), ("Tab", "panel")],
        Panel::Playlists => if items_view {
            vec![("Enter", "play"), ("↑↓", "nav"), ("d", "remove"), ("Esc", "back")]
        } else {
            vec![("Enter", "view"), ("↑↓", "nav"), ("n", "new"), ("d", "del"), ("p", "play")]
        },
        Panel::Chat => vec![("Enter", "send"), ("↑↓", "scroll"), ("Esc", "back"), ("Tab", "panel")],
        Panel::Help => vec![("↑↓", "scroll"), ("Esc", "back")],
    };
    assert(pair_views(r@) =~= panel_hints(panel, items_view));
    r
}

/// The playback key badges.
pub fn playback_key_hints() -> (r: Vec<(&'static str, &'static str)>)
    ensures
        pair_views(r@) == playback_hints(),
{
    let r = vec![
        ("Space", "⏯"),
        ("←→", "seek"),
        ("+/-", "vol"),
        ("]/[", "spd"),
        ("e", "eq"),
        ("r", "repeat"),
        ("n", "next"),
        ("f", "fav"),
        ("S", "stop"),
    ];
    assert(pair_views(r@) =~= playback_hints());
    r
}

} // verus!
