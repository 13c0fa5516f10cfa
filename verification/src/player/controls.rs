use vstd::prelude::*;

use crate::equalizer::preset_names;
use crate::player::types::RepeatMode;
use crate::text::{append_str, chars_eq, chars_of, decimal, push_decimal, push_two_digits, string_of, two_digits};

verus! {

// ── Volume ──────────────────────────────────────────────────────────────

/// One step up: five points more, at most 100.
pub fn volume_up(vol: u8) -> (r: u8)
    requires
        vol <= 250,
    ensures
        r == if vol + 5 <= 100 { vol + 5 } else { 100 },
{
    let v = vol + 5;
    if v <= 100 {
        v
    } else {
        100
    }
}

/// One step down: five points less, at least 0.
pub fn volume_down(vol: u8) -> (r: u8)
    ensures
        r == if vol >= 5 { vol - 5 } else { 0 },
{
    if vol >= 5 {
        vol - 5
    } else {
        0
    }
}

/// `"Volume: {n}%"`.
pub fn volume_status(vol: u8) -> (r: String)
    ensures
        r@ == "Volume: "@ + decimal(vol as nat) + "%"@,
{
    let mut out: Vec<char> = Vec::new();
    append_str(&mut out, "Volume: ");
    push_decimal(&mut out, vol as u64);
    append_str(&mut out, "%");
    string_of(&out)
}

// ── Sleep timer ─────────────────────────────────────────────────────────

/// The next sleep-timer length in minutes (0 cancels the timer), given the
/// whole minutes left on the running timer, or `None` when none runs. The
/// steps are 15 → 30 → 60 → 120 → off.
pub open spec fn sleep_step(remaining: Option<int>) -> int {
    match remaining {
        None => 15,
        Some(m) => if m <= 0 {
            15
        } else if m <= 15 {
            30
        } else if m <= 30 {
            60
        } else if m <= 60 {
            120
        } else {
            0
        },
    }
}

/// How a sleep-timer length is shown.
pub open spec fn sleep_label_text(minutes: int) -> Seq<char> {
    if minutes == 15 {
        "15min"@
    } else if minutes == 30 {
        "30min"@
    } else if minutes == 60 {
        "1h"@
    } else if minutes == 120 {
        "2h"@
    } else {
        "off"@
    }
}

pub open spec fn opt_int(o: Option<i64>) -> Option<int> {
    match o {
        Some(m) => Some(m as int),
        None => None,
    }
}

pub fn next_sleep_minutes(remaining: Option<i64>) -> (r: u32)
    ensures
        r == sleep_step(opt_int(remaining)),
{
    match remaining {
        None => 15,
        Some(m) => if m <= 0 {
            15
        } else if m <= 15 {
            30
        } else if m <= 30 {
            60
        } else if m <= 60 {
            120
        } else {
            0
        },
    }
}

pub fn sleep_label(minutes: u32) -> (r: &'static str)
    ensures
        r@ == sleep_label_text(minutes as int),
{
    if minutes == 15 {
        "15min"
    } else if minutes == 30 {
        "30min"
    } else if minutes == 60 {
        "1h"
    } else if minutes == 120 {
        "2h"
    } else {
        "off"
    }
}

/// Pressing the key again right away walks the steps 15 → 30 → 60 → 120 →
/// off, starting from no timer; a timer that has run out starts over at 15.
pub proof fn lemma_sleep_cycle()
    ensures
        sleep_step(None) == 15,
        sleep_step(Some(15)) == 30,
        sleep_step(Some(30)) == 60,
        sleep_step(Some(60)) == 120,
        sleep_step(Some(120)) == 0,
        sleep_step(Some(0)) == 15,
{
}

/// `HH:MM` of a Unix time, in UTC.
pub open spec fn clock_text(unix_secs: nat) -> Seq<char> {
    two_digits((unix_secs % 86400) / 3600) + ":"@ + two_digits((unix_secs % 3600) / 60)
}

/// The status line after the sleep timer changed: cancelled when
/// `minutes` is 0, else the step and the time it stops at.
pub open spec fn sleep_status_text(minutes: int, deadline_unix: nat) -> Seq<char> {
    if minutes == 0 {
        "😴 Sleep timer cancelled"@
    } else {
        "😴 Sleep in "@ + sleep_label_text(minutes) + " ("@ + clock_text(deadline_unix) + ")"@
    }
}

pub fn sleep_status(minutes: u32, deadline_unix: u64) -> (r: String)
    ensures
        r@ == sleep_status_text(minutes as int, deadline_unix as nat),
{
    if minutes == 0 {
        return string_of(&chars_of("😴 Sleep timer cancelled"));
    }
    let mut out: Vec<char> = Vec::new();
    append_str(&mut out, "😴 Sleep in ");
    append_str(&mut out, sleep_label(minutes));
    append_str(&mut out, " (");
    push_two_digits(&mut out, (deadline_unix % 86400) / 3600);
    append_str(&mut out, ":");
    push_two_digits(&mut out, (deadline_unix % 3600) / 60);
    append_str(&mut out, ")");
    string_of(&out)
}

// ── Equalizer ───────────────────────────────────────────────────────────

/// Where `name` stands in the preset list, or 0 when it is not listed.
pub open spec fn preset_index(name: Seq<char>) -> int {
    if exists|i: int| 0 <= i < preset_names().len() && preset_names()[i] == name {
        choose|i: int| 0 <= i < preset_names().len() && preset_names()[i] == name
    } else {
        0
    }
}

/// The preset after `current` in the list, wrapping around; an unknown
/// preset counts as the first.
pub open spec fn next_preset(current: Seq<char>) -> Seq<char> {
    preset_names()[(preset_index(current) + 1) % preset_names().len() as int]
}

proof fn lemma_preset_names_distinct()
    ensures
        forall|i: int, j: int|
            0 <= i < preset_names().len() && 0 <= j < preset_names().len() && i != j ==> preset_names()[i]
                != preset_names()[j],
{
    reveal_strlit("flat");
    reveal_strlit("bass-boost");
    reveal_strlit("vocal");
    reveal_strlit("treble");
    reveal_strlit("loudness");
    let s = preset_names();
    assert(s[0].len() == 4);
    assert(s[1].len() == 10);
    assert(s[2].len() == 5);
    assert(s[3].len() == 6);
    assert(s[4].len() == 8);
    assert forall|i: int, j: int| 0 <= i < s.len() && 0 <= j < s.len() && i != j implies s[i] != s[j] by {
        assert(i == 0 || i == 1 || i == 2 || i == 3 || i == 4);
        assert(j == 0 || j == 1 || j == 2 || j == 3 || j == 4);
        if s[i] == s[j] {
            assert(s[i].len() == s[j].len());
        }
    }
}

/// The index of a listed preset is its position.
pub proof fn lemma_preset_index(i: int)
    requires
        0 <= i < preset_names().len(),
    ensures
        preset_index(preset_names()[i]) == i,
{
    lemma_preset_names_distinct();
    let name = preset_names()[i];
    assert(0 <= i < preset_names().len() && preset_names()[i] == name);
}

/// The preset that the `e` key switches to.
pub fn next_eq_preset(current: &str) -> (r: &'static str)
    ensures
        r@ == next_preset(current@),
{
    proof {
        lemma_preset_names_distinct();
    }
    let names = crate::equalizer::eq_preset_names();
    let cur = chars_of(current);
    let mut idx: usize = 0;
    let mut i: usize = 0;
    let mut found = false;
    while i < names.len()
        invariant
            names@.len() == preset_names().len(),
            forall|k: int| 0 <= k < names@.len() ==> #[trigger] names@[k]@ == preset_names()[k],
            cur@ == current@,
            i <= names@.len(),
            found ==> idx < names@.len() && preset_names()[idx as int] == current@,
            !found ==> idx == 0 && forall|k: int| 0 <= k < i ==> preset_names()[k] != current@,
        decreases names@.len() - i,
    {
        if !found && chars_eq(&cur, names[i]) {
            idx = i;
            found = true;
        }
        i = i + 1;
    }
    proof {
        if found {
            lemma_preset_index(idx as int);
        } else {
            assert(!(exists|k: int| 0 <= k < preset_names().len() && preset_names()[k] == current@));
        }
    }
    let next = (idx + 1) % names.len();
    names[next]
}

/// Pressing `e` five times comes back to the preset it started from.
pub proof fn lemma_eq_cycle(i: int)
    requires
        0 <= i < preset_names().len(),
    ensures
        next_preset(next_preset(next_preset(next_preset(next_preset(preset_names()[i]))))) == preset_names()[i],
{
    let n = preset_names().len() as int;
    assert(n == 5);
    lemma_preset_index(i);
    lemma_preset_index((i + 1) % n);
    lemma_preset_index((i + 2) % n);
    lemma_preset_index((i + 3) % n);
    lemma_preset_index((i + 4) % n);
    assert(((i + 1) % n + 1) % n == (i + 2) % n);
    assert(((i + 2) % n + 1) % n == (i + 3) % n);
    assert(((i + 3) % n + 1) % n == (i + 4) % n);
    assert(((i + 4) % n + 1) % n == i);
}

// ── End of a track ──────────────────────────────────────────────────────

/// How the next track is taken from the queue.
#[derive(Debug, Clone, Copy, PartialEq, Eq, Structural)]
pub enum NextPick {
    /// Any entry, chosen at random (shuffle).
    Random,
    /// The entry at the front.
    Front,
}

/// What to do when the current track has ended.
#[derive(Debug, Clone, Copy, PartialEq, Eq, Structural)]
pub struct TrackEndPlan {
    /// Put the finished track back at the end of the queue first.
    pub requeue_current: bool,
    pub pick: NextPick,
}

/// Whether the player moves on: the track reached its end and is not
/// looping on its own (repeat one loops inside the player).
pub fn should_advance(is_eof: bool, repeat: RepeatMode) -> (r: bool)
    ensures
        r == (is_eof && repeat != RepeatMode::One),
{
    is_eof && repeat != RepeatMode::One
}

/// Repeat-all puts the finished track back in the queue; shuffle picks the
/// next one at random, else the front of the queue plays.
pub fn track_end_plan(repeat: RepeatMode, shuffle: bool) -> (r: TrackEndPlan)
    ensures
        r.requeue_current == (repeat == RepeatMode::All),
        r.pick == (if shuffle { NextPick::Random } else { NextPick::Front }),
{
    TrackEndPlan {
        requeue_current: repeat == RepeatMode::All,
        pick: if shuffle { NextPick::Random } else { NextPick::Front },
    }
}

/// The queue slot that a random number picks.
pub fn random_slot(seed: u64, len: usize) -> (r: usize)
    requires
        len > 0,
    ensures
        r == seed as int % len as int,
        r < len,
{
    (seed % (len as u64)) as usize
}

/// In the TUI an empty queue ends playback with a message, unless repeat-all
/// is on.
pub fn queue_finished(found_next: bool, repeat: RepeatMode) -> (r: bool)
    ensures
        r == (!found_next && repeat != RepeatMode::All),
{
    !found_next && repeat != RepeatMode::All
}

/// The status line after a saved position was restored: `"⏩ Resumed from
/// {m}:{ss}"`.
pub open spec fn resumed_text(secs: nat) -> Seq<char> {
    "⏩ Resumed from "@ + decimal(secs / 60) + ":"@ + two_digits(secs % 60)
}

pub fn resumed_status(secs: u64) -> (r: String)
    ensures
        r@ == resumed_text(secs as nat),
{
    let mut out: Vec<char> = Vec::new();
    append_str(&mut out, "⏩ Resumed from ");
    push_decimal(&mut out, secs / 60);
    append_str(&mut out, ":");
    push_two_digits(&mut out, secs % 60);
    string_of(&out)
}

/// The repeat mode an AI request names: `"one"`, `"all"`, anything else is off.
pub fn repeat_from_name(mode: &str) -> (r: RepeatMode)
    ensures
        r == (if mode@ == "one"@ {
            RepeatMode::One
        } else if mode@ == "all"@ {
            RepeatMode::All
        } else {
            RepeatMode::Off
        }),
{
    let m = chars_of(mode);
    if chars_eq(&m, "one") {
        RepeatMode::One
    } else if chars_eq(&m, "all") {
        RepeatMode::All
    } else {
        RepeatMode::Off
    }
}

} // verus!
