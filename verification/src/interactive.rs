use vstd::prelude::*;

use crate::library::playlist::opt_string_view;
use crate::player::types::RepeatMode;
use crate::text::{append_str, chars_eq, chars_of, decimal, push_decimal, string_of, trim, trim_chars};
use crate::tui::keys::KeyInput;

verus! {

/// Why the command-line player loop hands control back.
#[derive(Debug, Clone, Copy, PartialEq, Eq, Structural)]
pub enum InteractiveAction {
    Quit,
    NewSearch,
    Chat,
    /// The track finished: play the next one from the queue.
    PlayNext,
    /// The sleep timer ran out.
    SleepStop,
}

/// A key of the command-line player, as the loop acts on it.
#[derive(Debug, Clone, Copy, PartialEq, Eq, Structural)]
pub enum CliCommand {
    Leave(InteractiveAction),
    TogglePause,
    /// Seek by this many seconds.
    Seek(i32),
    VolumeUp,
    VolumeDown,
    SpeedUp,
    SpeedDown,
    CycleRepeat,
    ToggleShuffle,
    CycleEqualizer,
    ToggleFavorite,
    ToggleQueue,
    CycleSleep,
}

pub open spec fn cli_command_of(key: KeyInput) -> Option<CliCommand> {
    match key {
        KeyInput::Char('q') | KeyInput::CtrlC | KeyInput::Esc => Some(CliCommand::Leave(InteractiveAction::Quit)),
        KeyInput::Char(' ') => Some(CliCommand::TogglePause),
        KeyInput::Left => Some(CliCommand::Seek(-10i32)),
        KeyInput::Right => Some(CliCommand::Seek(10i32)),
        KeyInput::ShiftLeft => Some(CliCommand::Seek(-30i32)),
        KeyInput::ShiftRight => Some(CliCommand::Seek(30i32)),
        KeyInput::Up | KeyInput::ShiftUp => Some(CliCommand::VolumeUp),
        KeyInput::Down | KeyInput::ShiftDown => Some(CliCommand::VolumeDown),
        KeyInput::Char('+') | KeyInput::Char('=') => Some(CliCommand::SpeedUp),
        KeyInput::Char('-') => Some(CliCommand::SpeedDown),
        KeyInput::Char('r') => Some(CliCommand::CycleRepeat),
        KeyInput::Char('x') => Some(CliCommand::ToggleShuffle),
        KeyInput::Char('e') => Some(CliCommand::CycleEqualizer),
        KeyInput::Char('s') => Some(CliCommand::Leave(InteractiveAction::NewSearch)),
        KeyInput::Char('c') => Some(CliCommand::Leave(InteractiveAction::Chat)),
        KeyInput::Char('f') => Some(CliCommand::ToggleFavorite),
        KeyInput::Char('a') => Some(CliCommand::ToggleQueue),
        KeyInput::Char('t') => Some(CliCommand::CycleSleep),
        _ => None,
    }
}

/// The command a key stands for in the command-line player.
pub fn cli_command(key: KeyInput) -> (r: Option<CliCommand>)
    ensures
        r == cli_command_of(key),
{
    match key {
        KeyInput::Char('q') | KeyInput::CtrlC | KeyInput::Esc => Some(CliCommand::Leave(InteractiveAction::Quit)),
        KeyInput::Char(' ') => Some(CliCommand::TogglePause),
        KeyInput::Left => Some(CliCommand::Seek(-10)),
        KeyInput::Right => Some(CliCommand::Seek(10)),
        KeyInput::ShiftLeft => Some(CliCommand::Seek(-30)),
        KeyInput::ShiftRight => Some(CliCommand::Seek(30)),
        KeyInput::Up | KeyInput::ShiftUp => Some(CliCommand::VolumeUp),
        KeyInput::Down | KeyInput::ShiftDown => Some(CliCommand::VolumeDown),
        KeyInput::Char('+') | KeyInput::Char('=') => Some(CliCommand::SpeedUp),
        KeyInput::Char('-') => Some(CliCommand::SpeedDown),
        KeyInput::Char('r') => Some(CliCommand::CycleRepeat),
        KeyInput::Char('x') => Some(CliCommand::ToggleShuffle),
        KeyInput::Char('e') => Some(CliCommand::CycleEqualizer),
        KeyInput::Char('s') => Some(CliCommand::Leave(InteractiveAction::NewSearch)),
        KeyInput::Char('c') => Some(CliCommand::Leave(InteractiveAction::Chat)),
        KeyInput::Char('f') => Some(CliCommand::ToggleFavorite),
        KeyInput::Char('a') => Some(CliCommand::ToggleQueue),
        KeyInput::Char('t') => Some(CliCommand::CycleSleep),
        _ => None,
    }
}

/// What a tick of the loop decides before reading keys: an expired sleep
/// timer stops playback; a finished track moves on, unless repeat-one loops
/// it inside the player.
pub fn tick_action(sleep_expired: bool, repeat: RepeatMode, finished: bool) -> (r: Option<InteractiveAction>)
    ensures
        r == (if sleep_expired {
            Some(InteractiveAction::SleepStop)
        } else if repeat != RepeatMode::One && finished {
            Some(InteractiveAction::PlayNext)
        } else {
            None
        }),
{
    if sleep_expired {
        Some(InteractiveAction::SleepStop)
    } else if repeat != RepeatMode::One && finished {
        Some(InteractiveAction::PlayNext)
    } else {
        None
    }
}

/// State of the command-line player between ticks.
pub struct PlayerState {
    pub repeat: RepeatMode,
    pub shuffle: bool,
    /// Whether the current video is a favorite.
    pub is_fav: bool,
    /// Whether the current video is in the queue.
    pub in_queue: bool,
    /// A message shown in place of the status bar for one tick.
    pub flash: Option<String>,
}

pub open spec fn repeat_icon_text(m: RepeatMode) -> Seq<char> {
    match m {
        RepeatMode::Off => ""@,
        RepeatMode::One => " 🔂"@,
        RepeatMode::All => " 🔁"@,
    }
}

/// The equalizer badge: the preset's name unless it is `flat` or unknown.
pub open spec fn eq_icon_text(preset: Option<Seq<char>>) -> Seq<char> {
    match preset {
        Some(p) => if p != "flat"@ {
            " 🎛️"@ + p
        } else {
            ""@
        },
        None => ""@,
    }
}

impl PlayerState {
    pub fn new(is_fav: bool, in_queue: bool) -> (r: Self)
        ensures
            r.repeat == RepeatMode::Off,
            !r.shuffle,
            r.is_fav == is_fav,
            r.in_queue == in_queue,
            r.flash is None,
    {
        PlayerState { repeat: RepeatMode::Off, shuffle: false, is_fav, in_queue, flash: None }
    }

    pub fn cycle_repeat(&mut self) -> (r: RepeatMode)
        ensures
            r == old(self).repeat.next_mode(),
            *final(self) == (PlayerState { repeat: r, ..*old(self) }),
    {
        self.repeat = self.repeat.cycle();
        self.repeat
    }

    pub fn toggle_shuffle(&mut self) -> (r: bool)
        ensures
            r == !old(self).shuffle,
            *final(self) == (PlayerState { shuffle: r, ..*old(self) }),
    {
        self.shuffle = !self.shuffle;
        self.shuffle
    }

    /// Show `msg` in place of the status bar on the next tick.
    pub fn flash(&mut self, msg: String)
        ensures
            *final(self) == (PlayerState { flash: Some(msg), ..*old(self) }),
    {
        self.flash = Some(msg);
    }

    /// The badges after the speed in the status bar: equalizer, repeat,
    /// shuffle, favorite, queue.
    pub open spec fn badges_text(self, eq_preset: Option<Seq<char>>) -> Seq<char> {
        eq_icon_text(eq_preset) + repeat_icon_text(self.repeat) + (if self.shuffle { " 🔀"@ } else { ""@ }) + (
        if self.is_fav { " ❤️"@ } else { ""@ }) + (if self.in_queue { " 📋"@ } else { ""@ })
    }

    pub fn badges(&self, eq_preset: &Option<String>) -> (r: String)
        ensures
            r@ == self.badges_text(opt_string_view(*eq_preset)),
    {
        let ghost ep = opt_string_view(*eq_preset);
        proof {
            reveal_strlit("");
        }
        let mut out: Vec<char> = Vec::new();
        match eq_preset {
            Some(p) => {
                let pc = chars_of(p.as_str());
                if !chars_eq(&pc, "flat") {
                    append_str(&mut out, " 🎛️");
                    append_str(&mut out, p.as_str());
                }
            },
            None => {},
        }
        assert(out@ =~= eq_icon_text(ep));
        let ghost s1 = out@;
        match self.repeat {
            RepeatMode::Off => {},
            RepeatMode::One => append_str(&mut out, " 🔂"),
            RepeatMode::All => append_str(&mut out, " 🔁"),
        }
        assert(out@ =~= s1 + repeat_icon_text(self.repeat));
        let ghost s2 = out@;
        if self.shuffle {
            append_str(&mut out, " 🔀");
        }
        assert(out@ =~= s2 + (if self.shuffle { " 🔀"@ } else { ""@ }));
        let ghost s3 = out@;
        if self.is_fav {
            append_str(&mut out, " ❤️");
        }
        assert(out@ =~= s3 + (if self.is_fav { " ❤️"@ } else { ""@ }));
        let ghost s4 = out@;
        if self.in_queue {
            append_str(&mut out, " 📋");
        }
        assert(out@ =~= s4 + (if self.in_queue { " 📋"@ } else { ""@ }));
        string_of(&out)
    }

    /// After the favorite toggle reached the library: on success the flag
    /// flips and a message tells which way; on failure the error is shown.
    pub fn favorite_toggled(&mut self, error: Option<String>)
        ensures
            final(self).repeat == old(self).repeat,
            final(self).shuffle == old(self).shuffle,
            final(self).in_queue == old(self).in_queue,
            match error {
                None => final(self).is_fav == !old(self).is_fav && (final(self).flash matches Some(m) && m@ == (
                if old(self).is_fav {
                    "💔 removed from favorites"@
                } else {
                    "❤️  added to favorites!"@
                })),
                Some(e) => final(self).is_fav == old(self).is_fav && (final(self).flash matches Some(m) && m@
                    == "❌ error: "@ + e@),
            },
    {
        match error {
            None => {
                if self.is_fav {
                    self.is_fav = false;
                    self.flash(string_of(&chars_of("💔 removed from favorites")));
                } else {
                    self.is_fav = true;
                    self.flash(string_of(&chars_of("❤️  added to favorites!")));
                }
            },
            Some(e) => {
                let mut out: Vec<char> = Vec::new();
                append_str(&mut out, "❌ error: ");
                append_str(&mut out, e.as_str());
                self.flash(string_of(&out));
            },
        }
    }

    /// After the queue toggle reached the library. Removing reports only
    /// success or the error; adding reports the new queue length.
    pub fn queue_toggled(&mut self, result: Result<u64, String>)
        ensures
            final(self).repeat == old(self).repeat,
            final(self).shuffle == old(self).shuffle,
            final(self).is_fav == old(self).is_fav,
            match result {
                Ok(len) => final(self).in_queue == !old(self).in_queue && (final(self).flash matches Some(m)
                    && m@ == (if old(self).in_queue {
                    "📋✗ removed from queue"@
                } else {
                    "📋 added to queue (#"@ + decimal(len as nat) + ")"@
                })),
                Err(e) => final(self).in_queue == old(self).in_queue && (final(self).flash matches Some(m) && m@
                    == (if old(self).in_queue {
                    "❌ error: "@
                } else {
                    "❌ queue error: "@
                }) + e@),
            },
    {
        match result {
            Ok(len) => {
                if self.in_queue {
                    self.in_queue = false;
                    self.flash(string_of(&chars_of("📋✗ removed from queue")));
                } else {
                    self.in_queue = true;
                    let mut out: Vec<char> = Vec::new();
                    append_str(&mut out, "📋 added to queue (#");
                    push_decimal(&mut out, len);
                    append_str(&mut out, ")");
                    self.flash(string_of(&out));
                }
            },
            Err(e) => {
                let mut out: Vec<char> = Vec::new();
                if self.in_queue {
                    append_str(&mut out, "❌ error: ");
                } else {
                    append_str(&mut out, "❌ queue error: ");
                }
                append_str(&mut out, e.as_str());
                self.flash(string_of(&out));
            },
        }
    }
}

/// A line typed in chat mode, as the chat loop takes it.
#[derive(Debug, PartialEq, Eq)]
pub enum ChatLine {
    /// Nothing but spaces: ask again.
    Skip,
    /// `/quit`, `/q` or `exit`: leave chat mode.
    Exit,
    /// Send this (trimmed) message.
    Send(String),
}

pub fn chat_line(raw: &str) -> (r: ChatLine)
    ensures
        ({
            let t = trim(raw@);
            if t.len() == 0 {
                r is Skip
            } else if t == "/quit"@ || t == "/q"@ || t == "exit"@ {
                r is Exit
            } else {
                r matches ChatLine::Send(m) && m@ == t
            }
        }),
{
    let t = trim_chars(&chars_of(raw));
    if t.len() == 0 {
        ChatLine::Skip
    } else if chars_eq(&t, "/quit") || chars_eq(&t, "/q") || chars_eq(&t, "exit") {
        ChatLine::Exit
    } else {
        ChatLine::Send(string_of(&t))
    }
}

} // verus!
