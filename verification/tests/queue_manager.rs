use aux::player::queue_manager::{shuffle_with, QueueManager};
use aux::player::types::RepeatMode;

#[test]
fn advance_sequential() {
    let mut qm = QueueManager::new();
    assert_eq!(qm.advance(5), Some(1));
    assert_eq!(qm.advance(5), Some(2));
    assert_eq!(qm.index, 2);
}

#[test]
fn advance_repeat_off_ends() {
    let mut qm = QueueManager::new();
    qm.index = 4;
    assert_eq!(qm.advance(5), None);
}

#[test]
fn advance_repeat_all_wraps() {
    let mut qm = QueueManager::new();
    qm.repeat = RepeatMode::All;
    qm.index = 4;
    assert_eq!(qm.advance(5), Some(0));
    assert_eq!(qm.index, 0);
}

#[test]
fn advance_repeat_one_stays() {
    let mut qm = QueueManager::new();
    qm.repeat = RepeatMode::One;
    qm.index = 2;
    assert_eq!(qm.advance(5), Some(2));
    assert_eq!(qm.index, 2);
}

#[test]
fn go_back_restarts_past_threshold() {
    let mut qm = QueueManager::new();
    qm.index = 3;
    let (idx, restart) = qm.go_back(5, true);
    assert_eq!(idx, 3);
    assert!(restart);
}

#[test]
fn go_back_goes_previous() {
    let mut qm = QueueManager::new();
    qm.index = 3;
    let (idx, restart) = qm.go_back(5, false);
    assert_eq!(idx, 2);
    assert!(!restart);
}

#[test]
fn go_back_at_start_restarts() {
    let mut qm = QueueManager::new();
    let (idx, restart) = qm.go_back(5, false);
    assert_eq!(idx, 0);
    assert!(restart);
}

#[test]
fn shuffle_no_duplicates() {
    let mut qm = QueueManager::new();
    qm.reshuffle(10);
    let mut sorted = qm.shuffle_order.clone();
    sorted.sort();
    assert_eq!(sorted, (0..10).collect::<Vec<_>>());
}

#[test]
fn toggle_repeat_cycles() {
    let mut qm = QueueManager::new();
    assert_eq!(qm.toggle_repeat(), RepeatMode::One);
    assert_eq!(qm.toggle_repeat(), RepeatMode::All);
    assert_eq!(qm.toggle_repeat(), RepeatMode::Off);
}

#[test]
fn advance_empty_queue() {
    let mut qm = QueueManager::new();
    assert_eq!(qm.advance(0), None);
}

// ── further cases ──────────────────────────────────────────────────────

#[test]
fn back_then_advance_returns_to_track() {
    let mut qm = QueueManager::new();
    qm.index = 3;
    let (back, restart) = qm.go_back(5, false);
    assert_eq!((back, restart), (2, false));
    assert_eq!(qm.advance(5), Some(3));
}

#[test]
fn toggle_shuffle_builds_permutation_and_uses_it() {
    let mut qm = QueueManager::new();
    assert!(qm.toggle_shuffle(6));
    let mut sorted = qm.shuffle_order.clone();
    sorted.sort();
    assert_eq!(sorted, vec![0, 1, 2, 3, 4, 5]);
    assert_eq!(qm.actual_index(6), qm.shuffle_order[0]);
    assert!(!qm.toggle_shuffle(6));
    assert_eq!(qm.actual_index(6), 0);
}

#[test]
fn actual_index_clamps_without_shuffle() {
    let mut qm = QueueManager::new();
    qm.index = 9;
    assert_eq!(qm.actual_index(4), 3);
    assert_eq!(qm.actual_index(0), 0);
}

#[test]
fn repeat_all_with_shuffle_reshuffles_on_wrap() {
    let mut qm = QueueManager::new();
    qm.repeat = RepeatMode::All;
    qm.shuffle = true;
    qm.index = 2;
    let r = qm.advance(3);
    assert_eq!(qm.index, 0);
    let mut sorted = qm.shuffle_order.clone();
    sorted.sort();
    assert_eq!(sorted, vec![0, 1, 2]);
    assert_eq!(r, Some(qm.shuffle_order[0]));
}

#[test]
fn repeat_labels() {
    assert_eq!(RepeatMode::Off.label(), "🔁 off");
    assert_eq!(RepeatMode::One.label(), "🔂 one");
    assert_eq!(RepeatMode::All.label(), "🔁 all");
    assert_eq!(RepeatMode::default(), RepeatMode::Off);
    assert_eq!(RepeatMode::Off.cycle().cycle().cycle(), RepeatMode::Off);
}

#[test]
fn shuffle_with_all_zero_draws_rotates() {
    assert_eq!(shuffle_with(4, &vec![0, 0, 0]), vec![1, 2, 3, 0]);
}

#[test]
fn shuffle_with_self_draws_keeps_order() {
    assert_eq!(shuffle_with(4, &vec![3, 2, 1]), vec![0, 1, 2, 3]);
}

#[test]
fn shuffle_with_small_queues() {
    assert_eq!(shuffle_with(0, &vec![]), Vec::<usize>::new());
    assert_eq!(shuffle_with(1, &vec![]), vec![0]);
    assert_eq!(shuffle_with(2, &vec![0]), vec![1, 0]);
}

#[test]
fn reshuffle_of_one_track() {
    let mut qm = QueueManager::new();
    qm.reshuffle(1);
    assert_eq!(qm.shuffle_order, vec![0]);
}
