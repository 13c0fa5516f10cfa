use vstd::prelude::*;

verus! {

/// Whether playback of a track should resume at a saved position.
pub open spec fn resume_at(position: u64, duration: Option<u64>) -> Option<u64> {
    match duration {
        Some(d) if d > 0 => {
            let remaining = if d >= position { d - position } else { 0 };
            if position >= d * 90 / 100 || remaining < 30 {
                None
            } else {
                Some(position)
            }
        },
        _ => Some(position),
    }
}

/// The saved position to resume from: the position itself when the
/// duration is unknown, else `None` (and the record is stale) once 90% of
/// the track has been heard or less than 30 s remain.
pub fn resume_position(position: u64, duration: Option<u64>) -> (r: Option<u64>)
    requires
        duration matches Some(d) ==> d * 90 <= u64::MAX,
    ensures
        r == resume_at(position, duration),
{
    match duration {
        Some(d) if d > 0 => {
            let remaining = if d >= position {
                d - position
            } else {
                0
            };
            if position >= d * 90 / 100 || remaining < 30 {
                None
            } else {
                Some(position)
            }
        },
        _ => Some(position),
    }
}

/// A resumed position always leaves at least 30 s and more than a tenth of
/// the track to play.
pub proof fn lemma_resume_leaves_enough(position: u64, d: u64)
    requires
        d > 0,
        resume_at(position, Some(d)) is Some,
    ensures
        position + 30 <= d,
        position < d * 90 / 100,
{
}

} // verus!
