use vstd::prelude::*;

use crate::text::{append_str, chars_of, decimal, lowercase, push_decimal, string_of, to_lowercase};

verus! {

/// Seconds into a track after which "previous" restarts the current track.
pub const RESTART_THRESHOLD_SECS: u64 = 3;

/// Polling interval of the background player loop, in milliseconds.
pub const DAEMON_POLL_INTERVAL_MS: u64 = 500;

/// Polling interval of the TUI event loop, in milliseconds.
pub const TUI_POLL_INTERVAL_MS: u64 = 250;

/// Index of `1.0x` among the speed presets.
pub const DEFAULT_SPEED_INDEX: usize = 2;

/// Why a sleep-timer duration was rejected.
#[derive(Debug, Clone, Copy, PartialEq, Eq, Structural)]
pub enum DurationError {
    /// An `h` without a valid number before it.
    InvalidHours,
    /// An `m` without a valid number before it.
    InvalidMinutes,
    /// A character other than a digit, `h` or `m`.
    UnknownUnit,
    /// A trailing bare number that does not fit in `u32`.
    InvalidNumber,
    /// The durations add up to zero minutes.
    Zero,
}

impl DurationError {
    pub open spec fn message_text(self) -> Seq<char> {
        match self {
            DurationError::InvalidHours => "Invalid hours value"@,
            DurationError::InvalidMinutes => "Invalid minutes value"@,
            DurationError::UnknownUnit => "Unknown duration unit. Use: 30m, 1h, 1h30m"@,
            DurationError::InvalidNumber => "Invalid duration number"@,
            DurationError::Zero => "Duration must be > 0. Use: 30m, 1h, 1h30m"@,
        }
    }

    pub fn message(&self) -> (r: &'static str)
        ensures
            r@ == self.message_text(),
    {
        match self {
            DurationError::InvalidHours => "Invalid hours value",
            DurationError::InvalidMinutes => "Invalid minutes value",
            DurationError::UnknownUnit => "Unknown duration unit. Use: 30m, 1h, 1h30m",
            DurationError::InvalidNumber => "Invalid duration number",
            DurationError::Zero => "Duration must be > 0. Use: 30m, 1h, 1h30m",
        }
    }
}

pub open spec fn is_ascii_digit(c: char) -> bool {
    '0' <= c <= '9'
}

pub open spec fn digit_value(c: char) -> int {
    (c as u32) - ('0' as u32)
}

pub open spec fn finish_minutes(total: int) -> Option<Result<int, DurationError>> {
    if total == 0 {
        Some(Err(DurationError::Zero))
    } else {
        Some(Ok(total))
    }
}

/// The outcome of reading the lowercased input `s` from position `i`, with
/// `total` minutes so far and, when `pending`, digits read since the last
/// unit worth `num_val`. `None` stands for an addition that would overflow `u32`.
pub open spec fn duration_scan(s: Seq<char>, i: int, total: int, pending: bool, num_val: int) -> Option<
    Result<int, DurationError>,
>
    decreases s.len() - i,
{
    if i < 0 || i >= s.len() {
        if pending {
            if num_val > u32::MAX {
                Some(Err(DurationError::InvalidNumber))
            } else if total + num_val > u32::MAX {
                None
            } else {
                finish_minutes(total + num_val)
            }
        } else {
            finish_minutes(total)
        }
    } else {
        let c = s[i];
        if is_ascii_digit(c) {
            duration_scan(s, i + 1, total, true, num_val * 10 + digit_value(c))
        } else if c == 'h' {
            if !pending || num_val > u32::MAX {
                Some(Err(DurationError::InvalidHours))
            } else if total + num_val * 60 > u32::MAX {
                None
            } else {
                duration_scan(s, i + 1, total + num_val * 60, false, 0)
            }
        } else if c == 'm' {
            if !pending || num_val > u32::MAX {
                Some(Err(DurationError::InvalidMinutes))
            } else if total + num_val > u32::MAX {
                None
            } else {
                duration_scan(s, i + 1, total + num_val, false, 0)
            }
        } else {
            Some(Err(DurationError::UnknownUnit))
        }
    }
}

/// The minutes that a duration such as `30m`, `1h`, `1h30m` or `45` denotes,
/// read from its lowercased text; `None` where a sum would overflow `u32`.
pub open spec fn duration_minutes(input: Seq<char>) -> Option<Result<int, DurationError>> {
    duration_scan(lowercase(input), 0, 0, false, 0)
}

/// `s[i..]` has the form `([0-9]+[hm])*[0-9]*` (with `pending` telling
/// whether digits were read since the last unit).
pub open spec fn duration_shape(s: Seq<char>, i: int, pending: bool) -> bool
    decreases s.len() - i,
{
    if i < 0 || i >= s.len() {
        true
    } else if is_ascii_digit(s[i]) {
        duration_shape(s, i + 1, true)
    } else if s[i] == 'h' || s[i] == 'm' {
        pending && duration_shape(s, i + 1, false)
    } else {
        false
    }
}

/// The minutes that `s[i..]` adds to `total`, with the digits read so far
/// worth `num`: every run of digits counts 60 minutes a unit before `h`, one
/// minute before `m` or at the end.
pub open spec fn duration_value(s: Seq<char>, i: int, total: int, num: int) -> int
    decreases s.len() - i,
{
    if i < 0 || i >= s.len() {
        total + num
    } else if is_ascii_digit(s[i]) {
        duration_value(s, i + 1, total, num * 10 + digit_value(s[i]))
    } else if s[i] == 'h' {
        duration_value(s, i + 1, total + num * 60, 0)
    } else {
        duration_value(s, i + 1, total + num, 0)
    }
}

proof fn lemma_duration_value_grows(s: Seq<char>, i: int, total: int, num: int)
    requires
        0 <= i,
        total >= 0,
        num >= 0,
    ensures
        duration_value(s, i, total, num) >= total + num,
    decreases s.len() - i,
{
    if i < s.len() {
        if is_ascii_digit(s[i]) {
            lemma_duration_value_grows(s, i + 1, total, num * 10 + digit_value(s[i]));
        } else if s[i] == 'h' {
            lemma_duration_value_grows(s, i + 1, total + num * 60, 0);
        } else {
            lemma_duration_value_grows(s, i + 1, total + num, 0);
        }
    }
}

proof fn lemma_duration_scan_shaped(s: Seq<char>, i: int, total: int, pending: bool, num: int)
    requires
        0 <= i,
        total >= 0,
        num >= 0,
        !pending ==> num == 0,
        duration_shape(s, i, pending),
        duration_value(s, i, total, num) <= u32::MAX,
    ensures
        duration_scan(s, i, total, pending, num) == finish_minutes(duration_value(s, i, total, num)),
    decreases s.len() - i,
{
    if i < s.len() {
        let c = s[i];
        if is_ascii_digit(c) {
            lemma_duration_scan_shaped(s, i + 1, total, true, num * 10 + digit_value(c));
        } else if c == 'h' {
            lemma_duration_value_grows(s, i + 1, total + num * 60, 0);
            lemma_duration_scan_shaped(s, i + 1, total + num * 60, false, 0);
        } else {
            lemma_duration_value_grows(s, i + 1, total + num, 0);
            lemma_duration_scan_shaped(s, i + 1, total + num, false, 0);
        }
    }
}

proof fn lemma_duration_scan_unshaped(s: Seq<char>, i: int, total: int, pending: bool, num: int)
    requires
        0 <= i,
        !duration_shape(s, i, pending),
    ensures
        !(duration_scan(s, i, total, pending, num) matches Some(Ok(_))),
    decreases s.len() - i,
{
    if i < s.len() {
        let c = s[i];
        if is_ascii_digit(c) {
            lemma_duration_scan_unshaped(s, i + 1, total, true, num * 10 + digit_value(c));
        } else if c == 'h' {
            if pending {
                lemma_duration_scan_unshaped(s, i + 1, total + num * 60, false, 0);
            }
        } else if c == 'm' {
            if pending {
                lemma_duration_scan_unshaped(s, i + 1, total + num, false, 0);
            }
        }
    }
}

/// A lowercased duration `s` reads as `Ok(n)` exactly when it has the form
/// `([0-9]+[hm])*[0-9]*` and its minutes `n` (60 for each unit of a number
/// before `h`, one for each unit before `m` or at the end) are more than
/// zero, when they fit in `u32`; a text of that form worth zero minutes is
/// refused as zero.
pub proof fn lemma_duration_form(s: Seq<char>)
    ensures
        duration_shape(s, 0, false) && duration_value(s, 0, 0, 0) <= u32::MAX ==> duration_scan(s, 0, 0, false, 0)
            == (if duration_value(s, 0, 0, 0) > 0 {
            Some(Ok::<int, DurationError>(duration_value(s, 0, 0, 0)))
        } else {
            Some(Err::<int, DurationError>(DurationError::Zero))
        }),
        !duration_shape(s, 0, false) ==> !(duration_scan(s, 0, 0, false, 0) matches Some(Ok(_))),
{
    if duration_shape(s, 0, false) && duration_value(s, 0, 0, 0) <= u32::MAX {
        lemma_duration_value_grows(s, 0, 0, 0);
        lemma_duration_scan_shaped(s, 0, 0, false, 0);
    }
    if !duration_shape(s, 0, false) {
        lemma_duration_scan_unshaped(s, 0, 0, false, 0);
    }
}

/// Reads lowercased characters; `None` where a sum would overflow `u32`.
fn scan_duration(s: &Vec<char>) -> (r: Option<Result<u32, DurationError>>)
    ensures
        match duration_scan(s@, 0, 0, false, 0) {
            None => r is None,
            Some(Ok(v)) => r == Some(Ok::<u32, DurationError>(v as u32)),
            Some(Err(e)) => r == Some(Err::<u32, DurationError>(e)),
        },
{
    let n = s.len();
    let mut total: u32 = 0;
    let mut pending: bool = false;
    let mut num_val: u64 = 0;
    let ghost mut exact: int = 0;
    let mut i: usize = 0;
    while i < n
        invariant
            n == s@.len(),
            i <= n,
            exact >= 0,
            exact <= u32::MAX ==> num_val == exact,
            exact > u32::MAX ==> num_val > u32::MAX,
            num_val <= 42949672959,
            !pending ==> exact == 0,
            duration_scan(s@, 0, 0, false, 0) == duration_scan(s@, i as int, total as int, pending, exact),
        decreases n - i,
    {
        let c = s[i];
        if '0' <= c && c <= '9' {
            let d = (c as u32 - '0' as u32) as u64;
            proof {
                exact = exact * 10 + digit_value(c);
            }
            if num_val <= 4294967295 {
                num_val = num_val * 10 + d;
            }
            pending = true;
        } else if c == 'h' {
            if !pending || num_val > 4294967295 {
                return Some(Err(DurationError::InvalidHours));
            }
            if num_val * 60 > (4294967295u64 - total as u64) {
                return None;
            }
            total = total + (num_val * 60) as u32;
            pending = false;
            num_val = 0;
            proof {
                exact = 0;
            }
        } else if c == 'm' {
            if !pending || num_val > 4294967295 {
                return Some(Err(DurationError::InvalidMinutes));
            }
            if num_val > (4294967295u64 - total as u64) {
                return None;
            }
            total = total + num_val as u32;
            pending = false;
            num_val = 0;
            proof {
                exact = 0;
            }
        } else {
            return Some(Err(DurationError::UnknownUnit));
        }
        i = i + 1;
    }
    if pending {
        if num_val > 4294967295 {
            return Some(Err(DurationError::InvalidNumber));
        }
        if num_val > (4294967295u64 - total as u64) {
            return None;
        }
        total = total + num_val as u32;
    }
    if total == 0 {
        Some(Err(DurationError::Zero))
    } else {
        Some(Ok(total))
    }
}

/// Parse `"30m"` → 30, `"1h"` → 60, `"1h30m"` → 90, `"45"` → 45 (minutes).
pub fn parse_duration_str(input: &str) -> (r: Result<u32, DurationError>)
    requires
        duration_minutes(input@) is Some,
    ensures
        match duration_minutes(input@) {
            Some(Ok(v)) => r == Ok::<u32, DurationError>(v as u32),
            Some(Err(e)) => r == Err::<u32, DurationError>(e),
            None => false,
        },
{
    let lower = to_lowercase(input);
    let cs = chars_of(lower.as_str());
    match scan_duration(&cs) {
        Some(r) => r,
        None => Err(DurationError::Zero),
    }
}

/// `parse_duration_str` for any input: `None` exactly where its sums would
/// overflow `u32`, else the parse result.
pub fn parse_duration_str_checked(input: &str) -> (r: Option<Result<u32, DurationError>>)
    ensures
        match duration_minutes(input@) {
            None => r is None,
            Some(Ok(v)) => r == Some(Ok::<u32, DurationError>(v as u32)),
            Some(Err(e)) => r == Some(Err::<u32, DurationError>(e)),
        },
{
    let lower = to_lowercase(input);
    let cs = chars_of(lower.as_str());
    if scan_duration(&cs).is_some() {
        Some(parse_duration_str(input))
    } else {
        None
    }
}

/// `"2h 15m"`-style text for listening statistics.
pub open spec fn duration_long_text(secs: nat) -> Seq<char> {
    let h = secs / 3600;
    let m = (secs % 3600) / 60;
    if h == 0 {
        decimal(m) + "m"@
    } else if m == 0 {
        decimal(h) + "h"@
    } else {
        decimal(h) + "h "@ + decimal(m) + "m"@
    }
}

pub fn format_duration_long(secs: u64) -> (r: String)
    ensures
        r@ == duration_long_text(secs as nat),
{
    let h = secs / 3600;
    let m = (secs % 3600) / 60;
    let mut out: Vec<char> = Vec::new();
    if h == 0 {
        push_decimal(&mut out, m);
        append_str(&mut out, "m");
    } else if m == 0 {
        push_decimal(&mut out, h);
        append_str(&mut out, "h");
    } else {
        push_decimal(&mut out, h);
        append_str(&mut out, "h ");
        push_decimal(&mut out, m);
        append_str(&mut out, "m");
    }
    string_of(&out)
}

/// The playback speeds offered by the speed keys, in thousandths
/// (0.5x to 2x).
pub open spec fn speed_presets() -> Seq<u32> {
    seq![500u32, 750u32, 1000u32, 1250u32, 1500u32, 1750u32, 2000u32]
}

/// The first preset within 0.01x of `current` (in thousandths), or the
/// `1.0x` preset when none is that close.
pub open spec fn speed_index(current: int) -> int {
    if exists|i: int| 0 <= i < 7 && #[trigger] near(speed_presets()[i] as int, current) {
        choose|i: int|
            0 <= i < 7 && #[trigger] near(speed_presets()[i] as int, current) && forall|j: int|
                0 <= j < i ==> !near(speed_presets()[j] as int, current)
    } else {
        DEFAULT_SPEED_INDEX as int
    }
}

/// Two speeds in thousandths are closer than 0.01x.
pub open spec fn near(a: int, b: int) -> bool {
    -10 < a - b < 10
}

/// The preset one step up or down from `current`, staying within the list.
pub open spec fn next_speed(current: int, up: bool) -> u32 {
    let i = speed_index(current);
    speed_presets()[if up {
        if i + 1 < 7 { i + 1 } else { 6 }
    } else {
        if i > 0 { i - 1 } else { 0 }
    }]
}

/// The speed preset after `current_milli` (thousandths of normal speed).
pub fn next_speed_preset(current_milli: u32, up: bool) -> (r: u32)
    ensures
        r == next_speed(current_milli as int, up),
{
    let presets: [u32; 7] = [500, 750, 1000, 1250, 1500, 1750, 2000];
    assert(presets@ =~= speed_presets());
    let mut idx: usize = DEFAULT_SPEED_INDEX;
    let mut found = false;
    let mut i: usize = 0;
    while i < 7
        invariant
            presets@ == speed_presets(),
            i <= 7,
            found ==> idx < i && near(speed_presets()[idx as int] as int, current_milli as int) && forall|j: int|
                0 <= j < idx ==> !near(speed_presets()[j] as int, current_milli as int),
            !found ==> idx == DEFAULT_SPEED_INDEX && forall|j: int|
                0 <= j < i ==> !near(speed_presets()[j] as int, current_milli as int),
        decreases 7 - i,
    {
        let p = presets[i];
        let close = if p >= current_milli {
            p - current_milli < 10
        } else {
            current_milli - p < 10
        };
        if !found && close {
            idx = i;
            found = true;
        }
        i = i + 1;
    }
    proof {
        let c = current_milli as int;
        if found {
            let w = idx as int;
            assert(0 <= w < 7 && near(speed_presets()[w] as int, c));
            let k = speed_index(c);
            assert(0 <= k < 7 && near(speed_presets()[k] as int, c) && forall|j: int|
                0 <= j < k ==> !near(speed_presets()[j] as int, c));
            if k < w {
                assert(!near(speed_presets()[k] as int, c));
            }
            if w < k {
                assert(!near(speed_presets()[w] as int, c));
            }
            assert(k == w);
        } else {
            assert forall|j: int| 0 <= j < 7 implies !#[trigger] near(speed_presets()[j] as int, c) by {
                assert(0 <= j < i);
            }
        }
    }
    let next = if up {
        if idx + 1 < 7 {
            idx + 1
        } else {
            6
        }
    } else if idx > 0 {
        idx - 1
    } else {
        0
    };
    presets[next]
}

/// The presets run from the slowest to the fastest, and the speed keys step
/// through them one at a time: from a preset, up gives the next faster one
/// and down the next slower one; at the fastest (or slowest) preset the key
/// leaves the speed where it is.
pub proof fn lemma_speed_steps(i: int)
    requires
        0 <= i < 7,
    ensures
        i + 1 < 7 ==> speed_presets()[i] < speed_presets()[i + 1],
        i + 1 < 7 ==> next_speed(speed_presets()[i] as int, true) == speed_presets()[i + 1],
        i > 0 ==> next_speed(speed_presets()[i] as int, false) == speed_presets()[i - 1],
        i > 0 ==> next_speed(speed_presets()[i] as int, false) < speed_presets()[i],
        i + 1 < 7 ==> next_speed(speed_presets()[i] as int, true) > speed_presets()[i],
        i == 6 ==> next_speed(speed_presets()[i] as int, true) == speed_presets()[i],
        i == 0 ==> next_speed(speed_presets()[i] as int, false) == speed_presets()[i],
{
    let ps = speed_presets();
    let c = ps[i] as int;
    assert forall|j: int| 0 <= j < 7 && j != i implies !#[trigger] near(ps[j] as int, c) by {
        assert(i == 0 || i == 1 || i == 2 || i == 3 || i == 4 || i == 5 || i == 6);
        assert(j == 0 || j == 1 || j == 2 || j == 3 || j == 4 || j == 5 || j == 6);
    }
    assert(near(ps[i] as int, c));
    let k = speed_index(c);
    assert(0 <= k < 7 && near(ps[k] as int, c));
    assert(k == i);
    assert(i == 0 || i == 1 || i == 2 || i == 3 || i == 4 || i == 5 || i == 6);
}

} // verus!
