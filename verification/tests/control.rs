use huecycle::control::{Controller, CYCLE_TIME_MS, IDLE_TIME_MS};
use huecycle::coordinator::{LightState, CHECK_PERIOD_SECS};

// A day whose daylight lies far from the instants the loop runs at, so
// day/night reads "night".
const NIGHT_SUNRISE: i64 = 1_000_000;
const NIGHT_SUNSET: i64 = 1_050_000;

#[test]
fn three_ticks_send_three_increasing_frames() {
    let mut c = Controller::new(0);
    assert_eq!(c.animator.hue, 1);
    let mut frames = Vec::new();
    for now in 1..=3 {
        let plan = c.step(now, NIGHT_SUNRISE, NIGHT_SUNSET);
        assert!(plan.power_off.is_none());
        assert_eq!(plan.sleep_ms, CYCLE_TIME_MS);
        frames.push(plan.color.expect("lit loop must send a color frame"));
    }
    assert_eq!(c.animator.hue, 4);
    // Frames derived from hues 2, 3 and 4: red full, green climbing.
    assert_eq!(frames[0], vec![0x3C, 0x02, 255, 8, 0]);
    assert_eq!(frames[1], vec![0x3C, 0x02, 255, 12, 0]);
    assert_eq!(frames[2], vec![0x3C, 0x02, 255, 17, 0]);
    assert!(frames[0][3] < frames[1][3] && frames[1][3] < frames[2][3]);
}

#[test]
fn daytime_check_emits_one_power_off_then_idles() {
    let mut c = Controller::new(0);
    // Due check at a daytime instant: one power-off, no color, long idle.
    let now = CHECK_PERIOD_SECS;
    let plan = c.step(now, 0, 10_000);
    assert_eq!(c.coordinator.state, LightState::Suppressed);
    assert_eq!(plan.power_off, Some(vec![0x3C, 0x01]));
    assert!(plan.color.is_none());
    assert_eq!(plan.sleep_ms, IDLE_TIME_MS);
    let hue_when_suppressed = c.animator.hue;

    // The immediately following iteration: the check is not due again,
    // and no further frame of any kind is sent.
    let plan2 = c.step(now, 0, 10_000);
    assert!(plan2.power_off.is_none());
    assert!(plan2.color.is_none());
    assert_eq!(plan2.sleep_ms, IDLE_TIME_MS);

    // Even when the next check becomes due at a still-daytime instant,
    // the unchanged gate emits nothing more.
    let plan3 = c.step(now + CHECK_PERIOD_SECS, 0, 10_000);
    assert!(plan3.power_off.is_none());
    assert!(plan3.color.is_none());
    assert_eq!(c.animator.hue, hue_when_suppressed);
}

#[test]
fn night_check_resumes_color_frames_without_commands() {
    let mut c = Controller::new(0);
    let _ = c.step(CHECK_PERIOD_SECS, 0, 10_000);
    assert_eq!(c.coordinator.state, LightState::Suppressed);

    // The next due check falls at night: the state flips back silently
    // and the very same iteration already animates again.
    let plan = c.step(2 * CHECK_PERIOD_SECS, NIGHT_SUNRISE, NIGHT_SUNSET);
    assert_eq!(c.coordinator.state, LightState::Lit);
    assert!(plan.power_off.is_none());
    assert!(plan.color.is_some());
    assert_eq!(plan.sleep_ms, CYCLE_TIME_MS);
}
