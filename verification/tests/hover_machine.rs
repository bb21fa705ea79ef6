use shoelace_ui::hover::{HoverEvent, HoverState};

const DURATION: u64 = 300;

#[test]
fn enter_then_wait_shows() {
    // Pointer enter, then 300 ms of frame time without an exit: Shown.
    let s0 = HoverState::Idle;
    let s1 = s0.step(HoverEvent::Enter(1000), DURATION);
    assert_eq!(s1, HoverState::PendingShow(1000));
    let s2 = s1.step(HoverEvent::Tick(1300), DURATION);
    assert_eq!(s2, HoverState::Shown);
    assert!(s2.is_visible());
}

#[test]
fn early_exit_returns_to_idle_without_showing() {
    // Exit before the 300 ms elapsed: back to Idle, never Shown.
    let s0 = HoverState::Idle;
    let s1 = s0.step(HoverEvent::Enter(1000), DURATION);
    let s2 = s1.step(HoverEvent::Tick(1100), DURATION);
    assert_eq!(s2, HoverState::PendingShow(1000));
    assert!(!s2.is_visible());
    let s3 = s2.step(HoverEvent::Tick(1299), DURATION);
    assert_eq!(s3, HoverState::PendingShow(1000));
    let s4 = s3.step(HoverEvent::Exit(1299), DURATION);
    assert_eq!(s4, HoverState::Idle);
    assert!(!s4.is_visible());
}

#[test]
fn exit_from_shown_starts_hide_delay() {
    let s = HoverState::Shown.step(HoverEvent::Exit(2000), DURATION);
    assert_eq!(s, HoverState::PendingHide(2000));
    // Still visible during the grace period.
    assert!(s.is_visible());
    let s2 = s.step(HoverEvent::Tick(2100), DURATION);
    assert_eq!(s2, HoverState::PendingHide(2000));
    let s3 = s2.step(HoverEvent::Tick(2300), DURATION);
    assert_eq!(s3, HoverState::Idle);
}

#[test]
fn reenter_during_hide_delay_shows_again() {
    let s = HoverState::PendingHide(2000).step(HoverEvent::Enter(2100), DURATION);
    assert_eq!(s, HoverState::Shown);
}

#[test]
fn disable_forces_idle() {
    assert_eq!(
        HoverState::Shown.step(HoverEvent::Disable, DURATION),
        HoverState::Idle
    );
    assert_eq!(
        HoverState::PendingShow(10).step(HoverEvent::Disable, DURATION),
        HoverState::Idle
    );
    assert_eq!(
        HoverState::PendingHide(10).step(HoverEvent::Disable, DURATION),
        HoverState::Idle
    );
}

#[test]
fn time_before_since_does_not_elapse() {
    // A tick whose timestamp is before the wait began never completes the
    // delay.
    let s = HoverState::PendingShow(1000).step(HoverEvent::Tick(900), DURATION);
    assert_eq!(s, HoverState::PendingShow(1000));
}

#[test]
fn zero_duration_shows_on_first_tick() {
    let s = HoverState::Idle.step(HoverEvent::Enter(50), 0);
    let s2 = s.step(HoverEvent::Tick(50), 0);
    assert_eq!(s2, HoverState::Shown);
}

#[test]
fn default_state_is_idle() {
    assert_eq!(HoverState::default(), HoverState::Idle);
}
