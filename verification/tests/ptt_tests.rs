use octopus_desktop::ptt::{
    dispatch_action, drive_timeouts, on_keydown, on_keyup, CoordinatorCommand, FsmAction, PttFsm,
    TAP_TIMEOUT_MS,
};

#[test]
fn fsm_starts_idle() {
    let fsm = PttFsm::new();
    assert!(matches!(fsm, PttFsm::Idle));
}

#[test]
fn tap_timeout_is_260ms() {
    assert_eq!(TAP_TIMEOUT_MS, 260);
}

#[test]
fn timed_out_true_after_threshold() {
    let now = 10_000;
    let start = now - (TAP_TIMEOUT_MS + 10);
    assert!(PttFsm::timed_out(start, now));
}

#[test]
fn timed_out_false_before_threshold() {
    let now = 10_000;
    let start = now;
    assert!(!PttFsm::timed_out(start, now));
}

#[test]
fn timed_out_false_at_zero_elapsed() {
    let now = 10_000;
    let start = now;
    assert!(!PttFsm::timed_out(start, now));
}

#[test]
fn long_press_threshold_is_inclusive() {
    let now = 10_000;
    let start = now - TAP_TIMEOUT_MS;
    assert!(PttFsm::timed_out(start, now), "elapsed == timeout counts as timed out");
}

#[test]
fn toggle_short_click_polishes_immediately() {
    let (fsm, a) = PttFsm::Idle.next_on_keydown(1, 1000);
    assert!(matches!(fsm, PttFsm::ToggleInWait { .. }));
    assert_eq!(a, FsmAction::NoAction);
    let (fsm, a) = fsm.next_on_keyup(1000);
    assert!(matches!(fsm, PttFsm::Idle));
    assert_eq!(a, FsmAction::PolishNow, "a short press polishes at once");
}

#[test]
fn toggle_long_press_ends_recording() {
    let (_fsm, _) = PttFsm::Idle.next_on_keydown(1, 1000);
    let now = 10_000;
    let expired = PttFsm::ToggleInWait { timer_start: now - (TAP_TIMEOUT_MS + 10) };
    let (fsm, a) = expired.next_on_timeout(now);
    assert!(matches!(fsm, PttFsm::Idle));
    assert_eq!(a, FsmAction::ToggleEnd, "a long press ends the toggle recording");
}

#[test]
fn toggle_long_press_keyup_after_timeout_noop() {
    let now = 10_000;
    let expired = PttFsm::ToggleInWait { timer_start: now - (TAP_TIMEOUT_MS + 10) };
    let (fsm, a) = expired.next_on_keyup(now);
    assert!(matches!(fsm, PttFsm::Idle));
    assert_eq!(a, FsmAction::NoAction, "key up after the timeout sends nothing again");
}

#[test]
fn idle_double_click_starts_toggle() {
    let (fsm, _) = PttFsm::Idle.next_on_keydown(0, 1000);
    assert!(matches!(fsm, PttFsm::Pending { .. }));
    let (fsm, _) = fsm.next_on_keyup(1050);
    assert!(matches!(fsm, PttFsm::ShortPressWait { .. }));
    let (fsm, a) = fsm.next_on_keydown(0, 1100);
    assert!(matches!(fsm, PttFsm::Idle));
    assert_eq!(a, FsmAction::ToggleStart, "a double tap when idle starts toggle");
}

#[test]
fn fsm_action_eq_works() {
    assert_eq!(FsmAction::NoAction, FsmAction::NoAction);
    assert_ne!(FsmAction::ToggleStart, FsmAction::ToggleEnd);
    assert_ne!(FsmAction::PolishNow, FsmAction::ToggleEnd);
}

#[test]
fn long_press_records_push_to_talk_until_key_up() {
    let mut fsm = PttFsm::new();
    assert_eq!(on_keydown(&mut fsm, 0, 0), FsmAction::NoAction);
    assert_eq!(drive_timeouts(&mut fsm, 100), FsmAction::NoAction);
    assert!(matches!(fsm, PttFsm::Pending { timer_start: 0 }));
    assert_eq!(drive_timeouts(&mut fsm, 260), FsmAction::InstantStart);
    assert_eq!(fsm, PttFsm::PttRecording);
    assert_eq!(on_keyup(&mut fsm, 900), FsmAction::InstantStop);
    assert_eq!(fsm, PttFsm::Idle);
}

#[test]
fn single_tap_starts_hands_free_and_next_press_stops() {
    let mut fsm = PttFsm::new();
    on_keydown(&mut fsm, 0, 0);
    on_keyup(&mut fsm, 100);
    assert_eq!(drive_timeouts(&mut fsm, 300), FsmAction::NoAction);
    assert_eq!(drive_timeouts(&mut fsm, 360), FsmAction::HandsFreeStart);
    assert_eq!(on_keydown(&mut fsm, 3, 2000), FsmAction::NoAction);
    assert_eq!(on_keyup(&mut fsm, 2050), FsmAction::HandsFreeStop);
    assert_eq!(dispatch_action(FsmAction::HandsFreeStop), Some(CoordinatorCommand::HandsFreeStop));
    assert_eq!(dispatch_action(FsmAction::ToggleEnd), Some(CoordinatorCommand::Toggle));
    assert_eq!(dispatch_action(FsmAction::NoAction), None);
}
