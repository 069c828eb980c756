use std::cell::Cell;
use std::rc::Rc;

use button_gestures::{classify_reading, Button, ButtonConfig, ButtonPull, ButtonState, InputPin};

/// A pin whose level never changes; used where the machine is driven through
/// `step` and the pin is never read.
struct StuckPin;

impl InputPin for StuckPin {
    type Error = ();

    fn is_low(&self) -> Result<bool, ()> {
        Ok(false)
    }
}

/// A scriptable pin: the test flips the shared level between polls, and can
/// make every read fail.
struct LinePin {
    low: Rc<Cell<bool>>,
    broken: Rc<Cell<bool>>,
}

impl InputPin for LinePin {
    type Error = ();

    fn is_low(&self) -> Result<bool, ()> {
        if self.broken.get() {
            Err(())
        } else {
            Ok(self.low.get())
        }
    }
}

fn line_pin() -> (LinePin, Rc<Cell<bool>>, Rc<Cell<bool>>) {
    let low = Rc::new(Cell::new(false));
    let broken = Rc::new(Cell::new(false));
    let pin = LinePin {
        low: low.clone(),
        broken: broken.clone(),
    };
    (pin, low, broken)
}

/// A machine at 100 ticks/s with the default thresholds: pressing at 20
/// ticks, long press at 200 ticks.
fn machine() -> Button<StuckPin> {
    Button::new(StuckPin, 100, ButtonConfig::default())
}

fn hold(b: &mut Button<StuckPin>, ticks: u32) {
    for _ in 0..ticks {
        b.step(true);
    }
}

#[test]
fn default_config_values() {
    let config = ButtonConfig::default();
    assert_eq!(config.pressing_threshold_ms, 200);
    assert_eq!(config.long_press_threshold_ms, 2000);
    assert_eq!(config.pull, ButtonPull::PullUp);
}

#[test]
fn idle_stays_idle() {
    let mut b = machine();
    for _ in 0..50 {
        b.step(false);
        assert_eq!(b.read(), ButtonState::Idle);
    }
}

#[test]
fn short_tap_reports_press_once() {
    let mut b = machine();
    hold(&mut b, 10);
    b.step(false);
    assert_eq!(b.read(), ButtonState::Press);
    assert_eq!(b.read(), ButtonState::Idle);
    assert_eq!(b.read(), ButtonState::Idle);
}

#[test]
fn press_boundary_is_exclusive() {
    // 19 pressed ticks: the release tick makes 20, still within the pressing
    // threshold, so the tap counts.
    let mut b = machine();
    hold(&mut b, 19);
    b.step(false);
    assert_eq!(b.read(), ButtonState::Press);

    // 20 pressed ticks: the release tick makes 21, past the threshold and
    // short of a long press, so the gesture falls into the dead zone.
    let mut b = machine();
    hold(&mut b, 20);
    b.step(false);
    assert_eq!(b.read(), ButtonState::Idle);
}

#[test]
fn long_hold_reports_long_press_once() {
    let mut b = machine();
    hold(&mut b, 250);
    b.step(false);
    assert_eq!(b.read(), ButtonState::LongPress);
    assert_eq!(b.read(), ButtonState::Idle);
}

#[test]
fn dead_zone_hold_is_discarded() {
    let mut b = machine();
    hold(&mut b, 100);
    b.step(false);
    assert_eq!(b.read(), ButtonState::Idle);
}

#[test]
fn pressing_indicator_is_not_consumed() {
    let mut b = machine();
    hold(&mut b, 30);
    assert_eq!(b.read(), ButtonState::Pressing);
    assert_eq!(b.read(), ButtonState::Pressing);
    b.step(true);
    assert_eq!(b.read(), ButtonState::Pressing);
}

#[test]
fn down_fires_once_at_onset() {
    let mut b = machine();
    b.step(true);
    assert_eq!(b.read(), ButtonState::Down);
    assert_eq!(b.read(), ButtonState::Idle);
    b.step(true);
    assert_eq!(b.read(), ButtonState::Idle);
}

#[test]
fn reset_discards_gesture_of_any_length() {
    let mut b = machine();
    hold(&mut b, 10);
    b.reset();
    hold(&mut b, 290);
    b.step(false);
    assert_eq!(b.read(), ButtonState::Idle);

    // The request was consumed by that release: the next tap is classified
    // normally again.
    hold(&mut b, 5);
    b.step(false);
    assert_eq!(b.read(), ButtonState::Press);
}

#[test]
fn reset_requested_at_rest_discards_next_gesture() {
    let mut b = machine();
    b.reset();
    hold(&mut b, 250);
    b.step(false);
    assert_eq!(b.read(), ButtonState::Idle);
}

#[test]
fn threshold_conversion_is_exact() {
    // 100 ticks/s and a 2000 ms threshold must give exactly 200 ticks: the
    // release after 198 pressed ticks reaches a counter of 199 and is
    // discarded, after 199 pressed ticks it reaches 200 and is a long press.
    let mut b = machine();
    hold(&mut b, 198);
    b.step(false);
    assert_eq!(b.read(), ButtonState::Idle);

    let mut b = machine();
    hold(&mut b, 199);
    b.step(false);
    assert_eq!(b.read(), ButtonState::LongPress);
}

#[test]
fn zero_refresh_rate_is_degenerate_but_defined() {
    // Every threshold converts to zero ticks, so any press at all is already
    // past them: held for one tick the machine reports Pressing, and the
    // release classifies as LongPress.
    let mut b = Button::new(StuckPin, 0, ButtonConfig::default());
    b.step(true);
    assert_eq!(b.read(), ButtonState::Pressing);
    b.step(false);
    assert_eq!(b.read(), ButtonState::LongPress);
}

#[test]
fn counter_wrap_is_harmless() {
    // Far past the wrap point of the 16-bit counter the machine still runs;
    // after the wrap the counter has advanced 70000 - 65536 = 4464 ticks, so
    // the release at 4465 classifies as a long press.
    let mut b = machine();
    hold(&mut b, 70000);
    b.step(false);
    assert_eq!(b.read(), ButtonState::LongPress);
}

#[test]
fn released_sample_mid_hold_concludes_the_gesture() {
    // Release detection is edge-triggered on the instantaneous level: a
    // single released sample inside a hold ends the gesture there and then,
    // and the remainder of the hold is a new gesture of its own.
    let mut b = machine();
    hold(&mut b, 10);
    b.step(false);
    assert_eq!(b.read(), ButtonState::Press);
    hold(&mut b, 250);
    b.step(false);
    assert_eq!(b.read(), ButtonState::LongPress);
}

#[test]
fn pull_up_low_level_is_pressed() {
    let (pin, low, _broken) = line_pin();
    let mut b = Button::new(pin, 100, ButtonConfig::default());
    low.set(true);
    for _ in 0..5 {
        b.poll();
    }
    low.set(false);
    b.poll();
    assert_eq!(b.read(), ButtonState::Press);
}

#[test]
fn pull_down_low_level_is_released() {
    let (pin, low, _broken) = line_pin();
    let config = ButtonConfig {
        pull: ButtonPull::PullDown,
        ..ButtonConfig::default()
    };
    let mut b = Button::new(pin, 100, config);

    // A low line is the resting level for a pull-down: nothing happens.
    low.set(true);
    for _ in 0..50 {
        b.poll();
        assert_eq!(b.read(), ButtonState::Idle);
    }

    // A high line is a press.
    low.set(false);
    for _ in 0..5 {
        b.poll();
    }
    low.set(true);
    b.poll();
    assert_eq!(b.read(), ButtonState::Press);
}

#[test]
fn classify_reading_truth_table() {
    assert_eq!(classify_reading::<u8>(ButtonPull::PullUp, Ok(true)), 1);
    assert_eq!(classify_reading::<u8>(ButtonPull::PullUp, Ok(false)), 0);
    assert_eq!(classify_reading::<u8>(ButtonPull::PullDown, Ok(false)), 1);
    assert_eq!(classify_reading::<u8>(ButtonPull::PullDown, Ok(true)), 0);
}

#[test]
fn classify_reading_maps_failure_to_released() {
    assert_eq!(classify_reading::<u8>(ButtonPull::PullUp, Err(7)), 0);
    assert_eq!(classify_reading::<u8>(ButtonPull::PullDown, Err(7)), 0);
}

#[test]
fn failed_read_is_never_a_press() {
    // A broken pin at rest never starts a gesture.
    let (pin, low, broken) = line_pin();
    let mut b = Button::new(pin, 100, ButtonConfig::default());
    broken.set(true);
    low.set(true);
    for _ in 0..50 {
        b.poll();
        assert_eq!(b.read(), ButtonState::Idle);
    }

    // A read that starts failing mid-hold counts as a release.
    let (pin, low, broken) = line_pin();
    let mut b = Button::new(pin, 100, ButtonConfig::default());
    low.set(true);
    for _ in 0..10 {
        b.poll();
    }
    broken.set(true);
    b.poll();
    assert_eq!(b.read(), ButtonState::Press);
}
