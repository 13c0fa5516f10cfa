use vstd::prelude::*;

use crate::text::chars_eq;

verus! {

/// The mpv audio filter of an equalizer preset.
pub open spec fn preset_filter(name: Seq<char>) -> Option<Seq<char>> {
    if name == "flat"@ {
        Some(""@)
    } else if name == "bass-boost"@ {
        Some("superequalizer=1b=5:2b=4:3b=3:4b=1"@)
    } else if name == "vocal"@ {
        Some("superequalizer=6b=3:7b=4:8b=3:9b=2"@)
    } else if name == "treble"@ {
        Some("superequalizer=8b=3:9b=4:10b=5:11b=4"@)
    } else if name == "loudness"@ {
        Some("superequalizer=1b=4:2b=3:9b=3:10b=4"@)
    } else {
        None
    }
}

pub open spec fn preset_names() -> Seq<Seq<char>> {
    seq!["flat"@, "bass-boost"@, "vocal"@, "treble"@, "loudness"@]
}

/// EQ preset name → mpv audio filter string (`""` clears the equalizer).
pub fn eq_preset_filter(name: &str) -> (r: Option<&'static str>)
    ensures
        r is Some == preset_filter(name@) is Some,
        r matches Some(f) ==> f@ == preset_filter(name@)->0,
{
    let n = crate::text::chars_of(name);
    if chars_eq(&n, "flat") {
        Some("")
    } else if chars_eq(&n, "bass-boost") {
        Some("superequalizer=1b=5:2b=4:3b=3:4b=1")
    } else if chars_eq(&n, "vocal") {
        Some("superequalizer=6b=3:7b=4:8b=3:9b=2")
    } else if chars_eq(&n, "treble") {
        Some("superequalizer=8b=3:9b=4:10b=5:11b=4")
    } else if chars_eq(&n, "loudness") {
        Some("superequalizer=1b=4:2b=3:9b=3:10b=4")
    } else {
        None
    }
}

/// The names of the equalizer presets, in display order.
pub fn eq_preset_names() -> (r: Vec<&'static str>)
    ensures
        r@.len() == preset_names().len(),
        forall|i: int| 0 <= i < r@.len() ==> #[trigger] r@[i]@ == preset_names()[i],
{
    let r = vec!["flat", "bass-boost", "vocal", "treble", "loudness"];
    r
}

/// Every listed preset has a filter.
pub proof fn lemma_listed_presets_have_filters(i: int)
    requires
        0 <= i < preset_names().len(),
    ensures
        preset_filter(preset_names()[i]) is Some,
{
}

} // verus!
