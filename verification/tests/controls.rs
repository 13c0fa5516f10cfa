use aux::player::controls::{
    next_eq_preset, next_sleep_minutes, queue_finished, random_slot, repeat_from_name, resumed_status,
    should_advance, sleep_label, sleep_status, track_end_plan, volume_down, volume_status, volume_up, NextPick,
};
use aux::player::types::RepeatMode;
use aux::util::next_speed_preset;

#[test]
fn volume_steps_are_clamped() {
    assert_eq!(volume_up(80), 85);
    assert_eq!(volume_up(97), 100);
    assert_eq!(volume_up(100), 100);
    assert_eq!(volume_down(80), 75);
    assert_eq!(volume_down(3), 0);
    assert_eq!(volume_status(85), "Volume: 85%");
}

#[test]
fn sleep_timer_steps() {
    assert_eq!(next_sleep_minutes(None), 15);
    assert_eq!(next_sleep_minutes(Some(0)), 15);
    assert_eq!(next_sleep_minutes(Some(-3)), 15);
    assert_eq!(next_sleep_minutes(Some(15)), 30);
    assert_eq!(next_sleep_minutes(Some(16)), 60);
    assert_eq!(next_sleep_minutes(Some(30)), 60);
    assert_eq!(next_sleep_minutes(Some(60)), 120);
    assert_eq!(next_sleep_minutes(Some(61)), 0);
    assert_eq!(sleep_label(15), "15min");
    assert_eq!(sleep_label(60), "1h");
    assert_eq!(sleep_label(120), "2h");
    assert_eq!(sleep_label(0), "off");
}

#[test]
fn sleep_timer_cycle_from_nothing() {
    let mut m = next_sleep_minutes(None);
    let mut seen = vec![m];
    for _ in 0..4 {
        m = next_sleep_minutes(Some(m as i64));
        seen.push(m);
    }
    assert_eq!(seen, vec![15, 30, 60, 120, 0]);
}

#[test]
fn sleep_status_text() {
    assert_eq!(sleep_status(0, 12345), "😴 Sleep timer cancelled");
    // 1970-01-02 03:04:05 UTC
    assert_eq!(sleep_status(30, 86400 + 3 * 3600 + 4 * 60 + 5), "😴 Sleep in 30min (03:04)");
    assert_eq!(sleep_status(120, 23 * 3600 + 59 * 60), "😴 Sleep in 2h (23:59)");
}

#[test]
fn equalizer_cycle() {
    assert_eq!(next_eq_preset("flat"), "bass-boost");
    assert_eq!(next_eq_preset("treble"), "loudness");
    assert_eq!(next_eq_preset("loudness"), "flat");
    assert_eq!(next_eq_preset("unknown"), "bass-boost");
    let mut p = "vocal";
    for _ in 0..5 {
        p = next_eq_preset(p);
    }
    assert_eq!(p, "vocal");
}

#[test]
fn track_end_decisions() {
    assert!(should_advance(true, RepeatMode::Off));
    assert!(should_advance(true, RepeatMode::All));
    assert!(!should_advance(true, RepeatMode::One));
    assert!(!should_advance(false, RepeatMode::Off));
    let plan = track_end_plan(RepeatMode::All, true);
    assert!(plan.requeue_current);
    assert_eq!(plan.pick, NextPick::Random);
    let plan = track_end_plan(RepeatMode::Off, false);
    assert!(!plan.requeue_current);
    assert_eq!(plan.pick, NextPick::Front);
    assert!(queue_finished(false, RepeatMode::Off));
    assert!(!queue_finished(false, RepeatMode::All));
    assert!(!queue_finished(true, RepeatMode::Off));
}

#[test]
fn random_slot_is_in_range() {
    assert_eq!(random_slot(17, 5), 2);
    assert_eq!(random_slot(u64::MAX, 1), 0);
    for seed in 0..100u64 {
        assert!(random_slot(seed, 7) < 7);
    }
}

#[test]
fn resume_status() {
    assert_eq!(resumed_status(125), "⏩ Resumed from 2:05");
    assert_eq!(resumed_status(3600), "⏩ Resumed from 60:00");
}

#[test]
fn repeat_names() {
    assert_eq!(repeat_from_name("one"), RepeatMode::One);
    assert_eq!(repeat_from_name("all"), RepeatMode::All);
    assert_eq!(repeat_from_name("off"), RepeatMode::Off);
    assert_eq!(repeat_from_name("ONE"), RepeatMode::Off);
}

#[test]
fn speed_preset_up() {
    assert_eq!(next_speed_preset(1000, true), 1250);
    assert_eq!(next_speed_preset(2000, true), 2000);
}

#[test]
fn speed_preset_down() {
    assert_eq!(next_speed_preset(1000, false), 750);
    assert_eq!(next_speed_preset(500, false), 500);
}

#[test]
fn speed_preset_tolerance() {
    // Within 0.01x of a preset counts as that preset.
    assert_eq!(next_speed_preset(1255, true), 1500);
    // Anything else counts as normal speed.
    assert_eq!(next_speed_preset(1100, true), 1250);
    assert_eq!(next_speed_preset(1100, false), 750);
}
