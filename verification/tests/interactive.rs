use aux::interactive::{chat_line, cli_command, tick_action, ChatLine, CliCommand, InteractiveAction, PlayerState};
use aux::player::types::RepeatMode;
use aux::tui::keys::KeyInput;

#[test]
fn keys_of_the_command_line_player() {
    assert_eq!(cli_command(KeyInput::Char('q')), Some(CliCommand::Leave(InteractiveAction::Quit)));
    assert_eq!(cli_command(KeyInput::CtrlC), Some(CliCommand::Leave(InteractiveAction::Quit)));
    assert_eq!(cli_command(KeyInput::Esc), Some(CliCommand::Leave(InteractiveAction::Quit)));
    assert_eq!(cli_command(KeyInput::ShiftLeft), Some(CliCommand::Seek(-30)));
    assert_eq!(cli_command(KeyInput::Right), Some(CliCommand::Seek(10)));
    assert_eq!(cli_command(KeyInput::Up), Some(CliCommand::VolumeUp));
    assert_eq!(cli_command(KeyInput::Char('=')), Some(CliCommand::SpeedUp));
    assert_eq!(cli_command(KeyInput::Char('x')), Some(CliCommand::ToggleShuffle));
    assert_eq!(cli_command(KeyInput::Char('s')), Some(CliCommand::Leave(InteractiveAction::NewSearch)));
    assert_eq!(cli_command(KeyInput::Char('c')), Some(CliCommand::Leave(InteractiveAction::Chat)));
    assert_eq!(cli_command(KeyInput::Char('z')), None);
    assert_eq!(cli_command(KeyInput::Tab), None);
}

#[test]
fn ticks() {
    assert_eq!(tick_action(true, RepeatMode::One, true), Some(InteractiveAction::SleepStop));
    assert_eq!(tick_action(false, RepeatMode::Off, true), Some(InteractiveAction::PlayNext));
    assert_eq!(tick_action(false, RepeatMode::One, true), None);
    assert_eq!(tick_action(false, RepeatMode::All, false), None);
}

#[test]
fn player_state_toggles() {
    let mut s = PlayerState::new(false, true);
    assert_eq!(s.cycle_repeat(), RepeatMode::One);
    assert_eq!(s.cycle_repeat(), RepeatMode::All);
    assert!(s.toggle_shuffle());
    assert_eq!(s.badges(&Some("vocal".to_string())), " 🎛️vocal 🔁 🔀 📋");
    assert_eq!(s.badges(&Some("flat".to_string())), " 🔁 🔀 📋");
    assert_eq!(s.badges(&None), " 🔁 🔀 📋");
    s.flash("hello".to_string());
    assert_eq!(s.flash.as_deref(), Some("hello"));
}

#[test]
fn favorite_and_queue_toggles() {
    let mut s = PlayerState::new(false, false);
    s.favorite_toggled(None);
    assert!(s.is_fav);
    assert_eq!(s.flash.as_deref(), Some("❤️  added to favorites!"));
    s.favorite_toggled(Some("disk".into()));
    assert!(s.is_fav);
    assert_eq!(s.flash.as_deref(), Some("❌ error: disk"));
    s.favorite_toggled(None);
    assert!(!s.is_fav);
    assert_eq!(s.flash.as_deref(), Some("💔 removed from favorites"));
    s.queue_toggled(Ok(4));
    assert!(s.in_queue);
    assert_eq!(s.flash.as_deref(), Some("📋 added to queue (#4)"));
    s.queue_toggled(Err("busy".into()));
    assert_eq!(s.flash.as_deref(), Some("❌ error: busy"));
    s.queue_toggled(Ok(0));
    assert!(!s.in_queue);
    assert_eq!(s.flash.as_deref(), Some("📋✗ removed from queue"));
    s.queue_toggled(Err("busy".into()));
    assert_eq!(s.flash.as_deref(), Some("❌ queue error: busy"));
}

#[test]
fn chat_lines() {
    assert_eq!(chat_line("   "), ChatLine::Skip);
    assert_eq!(chat_line(" /q "), ChatLine::Exit);
    assert_eq!(chat_line("exit"), ChatLine::Exit);
    assert_eq!(chat_line("/quit"), ChatLine::Exit);
    assert_eq!(chat_line("  what is this song? "), ChatLine::Send("what is this song?".into()));
}
