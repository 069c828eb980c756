//! A polling-based debouncer and gesture classifier for one mechanical button.
//!
//! The machine is fed one sample per tick of a fixed-rate scheduler and turns
//! the noisy raw line level into discrete gesture events: `Down` at the onset
//! of a press, `Press` for a short tap, `LongPress` for an extended hold, and
//! a continuously re-asserted `Pressing` level while a hold is in progress.
//! Edge events are consumed by the first `read`; level states are not.

use vstd::prelude::*;

pub mod laws;

verus! {

/// The gesture classification the machine currently reports.
///
/// `Down`, `Press` and `LongPress` are edge events: `read` returns each one
/// exactly once and then falls back to `Idle`. `Pressing` and `Idle` are level
/// states: `read` reports them without consuming them.
#[derive(Copy, Clone, Debug, PartialEq, Eq, Structural)]
pub enum ButtonState {
    /// The button was just seen down for the first time in this gesture.
    Down,
    /// The button came up again after a short tap.
    Press,
    /// The button is being held down past the pressing threshold.
    Pressing,
    /// The button came up again after a hold of at least the long-press threshold.
    LongPress,
    /// Nothing to report.
    Idle,
}

/// The resting electrical bias of the input line. A press pulls the line into
/// the opposite level: with a pull-up, pressed means the line reads low; with
/// a pull-down, pressed means it reads high.
#[derive(Copy, Clone, Debug, PartialEq, Eq, Structural)]
pub enum ButtonPull {
    PullUp,
    PullDown,
}

/// Construction-time configuration. Thresholds are durations in milliseconds;
/// `Button::new` converts each one to a tick count by multiplying with the
/// refresh rate and truncating toward zero.
pub struct ButtonConfig {
    /// How long a hold must last to count as a continuous press, in milliseconds.
    pub pressing_threshold_ms: u32,
    /// How long a hold must last to count as a long press, in milliseconds.
    pub long_press_threshold_ms: u32,
    /// The idle bias of the button's line.
    pub pull: ButtonPull,
}

impl Default for ButtonConfig {
    /// A fifth of a second before a hold counts as pressing, two seconds
    /// before it counts as a long press, and a pulled-up line.
    fn default() -> (c: Self)
        ensures
            c.pressing_threshold_ms == 200,
            c.long_press_threshold_ms == 2000,
            c.pull == ButtonPull::PullUp,
    {
        ButtonConfig {
            pressing_threshold_ms: 200,
            long_press_threshold_ms: 2000,
            pull: ButtonPull::PullUp,
        }
    }
}

/// The input line the button is wired to: one query, "is the line at logic
/// low?", with an explicit failure case. Host platforms implement this for
/// their own pin types; mock implementations serve for testing. The machine
/// treats a failed read as "not pressed".
pub trait InputPin {
    type Error;

    fn is_low(&self) -> Result<bool, Self::Error>;
}

/// The mathematical state of one button machine: every field the transition
/// relation reads or writes, with the pin handle abstracted away.
pub ghost struct ButtonView {
    /// Ticks seen since the current gesture began, the concluding tick included.
    pub counter: u16,
    /// Whether the button was seen down at least once in the current gesture.
    pub debounced: bool,
    /// Hold length, in ticks, at which a hold becomes a continuous press.
    pub pressing_threshold: u16,
    /// Hold length, in ticks, at which a concluded hold becomes a long press.
    pub long_press_threshold: u16,
    /// The configured idle bias of the line.
    pub pull: ButtonPull,
    /// Whether the gesture in progress is to be discarded on release.
    pub reset_requested: bool,
    /// The classification `read` currently reports.
    pub state: ButtonState,
}

/// A threshold duration in milliseconds converted to a tick count at the given
/// refresh rate, truncating toward zero and saturating at the counter's range.
pub open spec fn spec_ticks(f_refresh: u16, threshold_ms: u32) -> u16 {
    let t: int = (f_refresh as int) * (threshold_ms as int) / 1000;
    if t > 0xffff {
        0xffffu16
    } else {
        t as u16
    }
}

/// The tick counter advances by one and wraps at the top of its range.
pub open spec fn spec_wrap_inc(c: u16) -> u16 {
    if c == 0xffff {
        0u16
    } else {
        (c + 1) as u16
    }
}

/// The transition relation: the machine after one tick that sampled the level
/// `pressed`. While no press has been seen, nothing moves. Otherwise the
/// counter advances; the first tick of a gesture surfaces `Down`; reaching the
/// pressing threshold asserts `Pressing`; and a released sample concludes the
/// gesture, classifying it by the counter against the thresholds (or
/// discarding it when a reset was requested) and clearing the gesture state.
pub open spec fn spec_step(pre: ButtonView, pressed: bool) -> ButtonView {
    let debounced: bool = pre.debounced || pressed;
    if !debounced {
        pre
    } else {
        let counter: u16 = spec_wrap_inc(pre.counter);
        let held_state: ButtonState = if counter >= pre.pressing_threshold {
            ButtonState::Pressing
        } else if pre.counter == 0 {
            ButtonState::Down
        } else {
            pre.state
        };
        if pressed {
            ButtonView { counter, debounced: true, state: held_state, ..pre }
        } else {
            let classified: ButtonState = if pre.reset_requested {
                ButtonState::Idle
            } else if counter <= pre.pressing_threshold {
                ButtonState::Press
            } else if counter >= pre.long_press_threshold {
                ButtonState::LongPress
            } else {
                ButtonState::Idle
            };
            ButtonView {
                counter: 0,
                debounced: false,
                reset_requested: false,
                state: classified,
                ..pre
            }
        }
    }
}

/// The machine after `k` consecutive ticks that all sampled the level `pressed`.
pub open spec fn spec_run_level(pre: ButtonView, pressed: bool, k: nat) -> ButtonView
    decreases k,
{
    if k == 0 {
        pre
    } else {
        spec_step(spec_run_level(pre, pressed, (k - 1) as nat), pressed)
    }
}

/// What `read` leaves behind: edge events are consumed to `Idle`, the level
/// states `Pressing` and `Idle` stay.
pub open spec fn spec_consume(s: ButtonState) -> ButtonState {
    match s {
        ButtonState::Pressing | ButtonState::Idle => s,
        _ => ButtonState::Idle,
    }
}

/// The debounce input bit a raw reading yields under a given pull: pressed
/// (1) exactly when the line read low under a pull-up or high under a
/// pull-down; a failed read is never a press.
pub open spec fn spec_classify_reading<E>(pull: ButtonPull, reading: Result<bool, E>) -> u8 {
    match (pull, reading) {
        (ButtonPull::PullUp, Ok(true)) => 1u8,
        (ButtonPull::PullDown, Ok(false)) => 1u8,
        _ => 0u8,
    }
}

/// The fail-safe mapping of one raw reading through the configured pull:
/// the result is 1 exactly when the reading succeeded and the level is the
/// pressed one for that pull (low under a pull-up, high under a pull-down),
/// and 0 otherwise — in particular, a faulted read is never taken for a
/// press.
pub fn classify_reading<E>(pull: ButtonPull, reading: Result<bool, E>) -> (r: u8)
    ensures
        r == spec_classify_reading(pull, reading),
        reading is Err ==> r == 0,
{
    match (pull, reading) {
        (ButtonPull::PullUp, Ok(true)) => 1,
        (ButtonPull::PullDown, Ok(false)) => 1,
        _ => 0,
    }
}

/// The machine at rest: no gesture in progress, nothing pending.
pub open spec fn spec_resting(v: ButtonView) -> bool {
    &&& v.counter == 0
    &&& !v.debounced
    &&& !v.reset_requested
    &&& v.state == ButtonState::Idle
}

/// One debounced button. It owns its input pin exclusively; an external
/// scheduler calls `poll` once per tick and application logic calls `read` at
/// any cadence.
pub struct Button<PIN> {
    counter: u16,
    debounced: bool,
    long_press_threshold: u16,
    pin: PIN,
    pressing_threshold: u16,
    pull: ButtonPull,
    reset: bool,
    state: ButtonState,
}

impl<PIN> View for Button<PIN> {
    type V = ButtonView;

    closed spec fn view(&self) -> ButtonView {
        ButtonView {
            counter: self.counter,
            debounced: self.debounced,
            pressing_threshold: self.pressing_threshold,
            long_press_threshold: self.long_press_threshold,
            pull: self.pull,
            reset_requested: self.reset,
            state: self.state,
        }
    }
}

/// A threshold in milliseconds converted to ticks at the given refresh rate,
/// truncating toward zero and saturating at the counter's range.
fn ticks_from_ms(f_refresh: u16, threshold_ms: u32) -> (t: u16)
    ensures
        t == spec_ticks(f_refresh, threshold_ms),
{
    proof {
        assert((f_refresh as int) * (threshold_ms as int) <= 0xffff * 0xffffffff)
            by (nonlinear_arith)
            requires
                f_refresh <= 0xffff,
                threshold_ms <= 0xffffffff,
        ;
    }
    let product: u64 = (f_refresh as u64) * (threshold_ms as u64);
    let ticks: u64 = product / 1000;
    if ticks > 0xffff {
        0xffffu16
    } else {
        ticks as u16
    }
}

impl<PIN> Button<PIN> where PIN: InputPin {
    /// A fresh machine at rest, with each configured threshold converted from
    /// milliseconds to ticks at the given refresh rate (ticks per second).
    /// A refresh rate of zero is degenerate but defined: every threshold
    /// becomes zero ticks, so any press at all already exceeds it.
    pub fn new(pin: PIN, f_refresh: u16, config: ButtonConfig) -> (b: Self)
        ensures
            b@ == (ButtonView {
                counter: 0,
                debounced: false,
                pressing_threshold: spec_ticks(f_refresh, config.pressing_threshold_ms),
                long_press_threshold: spec_ticks(f_refresh, config.long_press_threshold_ms),
                pull: config.pull,
                reset_requested: false,
                state: ButtonState::Idle,
            }),
    {
        Self {
            counter: 0,
            debounced: false,
            long_press_threshold: ticks_from_ms(f_refresh, config.long_press_threshold_ms),
            pin,
            pressing_threshold: ticks_from_ms(f_refresh, config.pressing_threshold_ms),
            pull: config.pull,
            reset: false,
            state: ButtonState::Idle,
        }
    }

    /// The instantaneous debounce input: one pin query, mapped through the
    /// configured pull by `classify_reading`, whose contract fixes the bit for
    /// every possible reading. The reading itself is the pin's to make, so
    /// all this function can promise of its result is the bit's range.
    fn raw_state(&self) -> (r: u8)
        ensures
            r == 0 || r == 1,
    {
        let reading = self.pin.is_low();
        classify_reading(self.pull, reading)
    }

    /// One tick of the machine on an already-sampled level: exactly one
    /// application of the transition relation.
    pub fn step(&mut self, pressed: bool)
        ensures
            final(self)@ == spec_step(old(self)@, pressed),
    {
        self.debounced = self.debounced || pressed;
        if self.debounced {
            if self.counter == 0 {
                self.state = ButtonState::Down;
            }
            self.counter = if self.counter == 0xffff {
                0u16
            } else {
                self.counter + 1
            };
            if self.counter >= self.pressing_threshold {
                self.state = ButtonState::Pressing;
            }
            if !pressed {
                if self.reset {
                    self.state = ButtonState::Idle;
                    self.reset = false;
                } else if self.counter <= self.pressing_threshold {
                    self.state = ButtonState::Press;
                } else if self.counter >= self.long_press_threshold {
                    self.state = ButtonState::LongPress;
                } else {
                    self.state = ButtonState::Idle;
                }
                self.counter = 0;
                self.debounced = false;
            }
        }
    }

    /// One tick driven by the pin itself: sample the raw level, map it through
    /// the configured pull with a failed read counting as released, and apply
    /// the transition relation to the sampled level. The pin is outside the
    /// machine's control, so all that is promised is that the tick was one
    /// honest transition on some sampled level.
    pub fn poll(&mut self)
        ensures
            exists|pressed: bool| final(self)@ == spec_step(old(self)@, pressed),
    {
        let raw: u8 = self.raw_state();
        self.step(raw == 1);
    }

    /// The pending classification. Edge events (`Down`, `Press`, `LongPress`)
    /// are consumed: the first `read` after the event returns it and every
    /// later `read` before the next event returns `Idle`. The level states
    /// `Pressing` and `Idle` are reported without being consumed.
    pub fn read(&mut self) -> (r: ButtonState)
        ensures
            r == old(self)@.state,
            final(self)@ == (ButtonView { state: spec_consume(old(self)@.state), ..old(self)@ }),
    {
        match self.state {
            ButtonState::Pressing | ButtonState::Idle => self.state,
            _ => {
                let state = self.state;
                self.state = ButtonState::Idle;
                state
            }
        }
    }

    /// Request that the gesture in progress be discarded: its eventual release
    /// classifies as `Idle` instead of `Press` or `LongPress`, and the request
    /// is consumed by that release. With no gesture in progress the request
    /// stays pending until a gesture concludes.
    pub fn reset(&mut self)
        ensures
            final(self)@ == (ButtonView { reset_requested: true, ..old(self)@ }),
    {
        self.reset = true;
    }
}

} // verus!
