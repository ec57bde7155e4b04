use huecycle::coordinator::{Coordinator, LightState, CHECK_PERIOD_SECS};

#[test]
fn starts_lit_with_first_check_one_period_out() {
    let c = Coordinator::new(1000);
    assert_eq!(c.state, LightState::Lit);
    assert_eq!(c.next_check, 1000 + CHECK_PERIOD_SECS);
}

#[test]
fn daytime_edge_emits_exactly_one_power_off() {
    let mut c = Coordinator::new(0);
    let first = c.evaluate(true);
    assert_eq!(first, Some(vec![0x3C, 0x01]));
    assert_eq!(c.state, LightState::Suppressed);
    // An immediate re-evaluation of the unchanged gate is a no-op.
    let second = c.evaluate(true);
    assert_eq!(second, None);
    assert_eq!(c.state, LightState::Suppressed);
    let third = c.evaluate(true);
    assert_eq!(third, None);
}

#[test]
fn night_resume_flips_state_without_commands() {
    let mut c = Coordinator::new(0);
    let _ = c.evaluate(true);
    assert_eq!(c.state, LightState::Suppressed);
    let cmd = c.evaluate(false);
    assert_eq!(cmd, None);
    assert_eq!(c.state, LightState::Lit);
}

#[test]
fn repeated_night_evaluation_is_a_noop() {
    let mut c = Coordinator::new(0);
    let cmd = c.evaluate(false);
    assert_eq!(cmd, None);
    assert_eq!(c.state, LightState::Lit);
}

#[test]
fn check_before_due_instant_does_nothing() {
    let mut c = Coordinator::new(0);
    // Daytime arguments, but the interval has not elapsed yet.
    let cmd = c.check_due(CHECK_PERIOD_SECS - 1, 0, 10_000);
    assert_eq!(cmd, None);
    assert_eq!(c.state, LightState::Lit);
    assert_eq!(c.next_check, CHECK_PERIOD_SECS);
}

#[test]
fn due_check_fires_and_reschedules_from_its_own_instant() {
    let mut c = Coordinator::new(0);
    // The check runs late; the next one is due a full period after it.
    let late = CHECK_PERIOD_SECS + 77;
    let cmd = c.check_due(late, 0, 10_000);
    assert_eq!(cmd, Some(vec![0x3C, 0x01]));
    assert_eq!(c.state, LightState::Suppressed);
    assert_eq!(c.next_check, late + CHECK_PERIOD_SECS);
}

#[test]
fn due_check_at_night_keeps_lit_silently() {
    let mut c = Coordinator::new(0);
    let cmd = c.check_due(CHECK_PERIOD_SECS, 200_000, 210_000);
    assert_eq!(cmd, None);
    assert_eq!(c.state, LightState::Lit);
}
