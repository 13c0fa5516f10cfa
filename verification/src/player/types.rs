use vstd::prelude::*;

verus! {

/// How playback continues when a track ends.
#[derive(Debug, Clone, Copy, PartialEq, Eq, Structural)]
pub enum RepeatMode {
    Off,
    One,
    All,
}

impl RepeatMode {
    /// The mode that follows `self` in the cycle Off → One → All → Off.
    pub open spec fn next_mode(self) -> RepeatMode {
        match self {
            RepeatMode::Off => RepeatMode::One,
            RepeatMode::One => RepeatMode::All,
            RepeatMode::All => RepeatMode::Off,
        }
    }

    pub fn cycle(self) -> (r: RepeatMode)
        ensures
            r == self.next_mode(),
    {
        match self {
            RepeatMode::Off => RepeatMode::One,
            RepeatMode::One => RepeatMode::All,
            RepeatMode::All => RepeatMode::Off,
        }
    }

    pub open spec fn label_text(self) -> Seq<char> {
        match self {
            RepeatMode::Off => "🔁 off"@,
            RepeatMode::One => "🔂 one"@,
            RepeatMode::All => "🔁 all"@,
        }
    }

    pub fn label(self) -> (r: &'static str)
        ensures
            r@ == self.label_text(),
    {
        match self {
            RepeatMode::Off => "🔁 off",
            RepeatMode::One => "🔂 one",
            RepeatMode::All => "🔁 all",
        }
    }
}

impl Default for RepeatMode {
    fn default() -> (r: Self)
        ensures
            r == RepeatMode::Off,
    {
        RepeatMode::Off
    }
}

/// Cycling the repeat mode three times comes back to where it started.
pub proof fn lemma_cycle_period_three(m: RepeatMode)
    ensures
        m.next_mode().next_mode().next_mode() == m,
        m.next_mode() != m,
{
}

} // verus!
