//! The laws of the gesture machine: properties that relate whole runs of
//! `spec_step` to the classification the machine reports, proved once here
//! and exercised on concrete runs by the test suite.
//!
//! Each law quantifies over a run of ticks built with `spec_run_level`; a
//! "hold of `k` ticks then a release" is `k` pressed samples followed by one
//! released sample, and the released sample itself advances the gesture
//! counter once more before the gesture is classified.

use vstd::prelude::*;

use crate::{ButtonState, ButtonView, spec_consume, spec_resting, spec_run_level, spec_step};

verus! {

/// Idle is idempotent: while the line stays released, any number of ticks
/// leaves a resting machine exactly as it was, so `read` keeps returning
/// `Idle` and the counters stay at zero.
pub proof fn lemma_idle_idempotent(v: ButtonView, n: nat)
    requires
        spec_resting(v),
    ensures
        spec_run_level(v, false, n) == v,
    decreases n,
{
    if n > 0 {
        lemma_idle_idempotent(v, (n - 1) as nat);
    }
}

/// Pressed ticks never touch the configuration or the cancellation flag:
/// after any number of pressed samples the thresholds and the pull are as
/// configured, a pending reset request is still pending, and the sticky
/// debounce flag is set as soon as one pressed sample was seen.
pub proof fn lemma_hold_frame(v: ButtonView, k: nat)
    ensures
        ({
            let h = spec_run_level(v, true, k);
            &&& h.pressing_threshold == v.pressing_threshold
            &&& h.long_press_threshold == v.long_press_threshold
            &&& h.pull == v.pull
            &&& h.reset_requested == v.reset_requested
            &&& h.debounced == (v.debounced || k >= 1)
        }),
    decreases k,
{
    if k > 0 {
        lemma_hold_frame(v, (k - 1) as nat);
    }
}

/// A hold in progress, tick by tick: after `k` pressed samples (short of the
/// counter's wrap point) from rest, the counter has counted exactly `k`, the
/// gesture is marked in progress, and the reported state is the `Down` edge
/// until the hold reaches the pressing threshold, from which tick on it is
/// the `Pressing` level.
pub proof fn lemma_hold_from_rest(v: ButtonView, k: nat)
    requires
        spec_resting(v),
        1 <= k <= 0xffff,
    ensures
        ({
            let h = spec_run_level(v, true, k);
            &&& h.counter == k
            &&& h.debounced
            &&& !h.reset_requested
            &&& h.pressing_threshold == v.pressing_threshold
            &&& h.long_press_threshold == v.long_press_threshold
            &&& h.pull == v.pull
            &&& h.state == (if k >= v.pressing_threshold {
                ButtonState::Pressing
            } else {
                ButtonState::Down
            })
        }),
    decreases k,
{
    if k == 1 {
        assert(spec_run_level(v, true, 0) == v);
    } else {
        lemma_hold_from_rest(v, (k - 1) as nat);
    }
}

/// Short tap: pressed for `k` ticks with `k` below the pressing threshold,
/// then released, a resting machine classifies the gesture as `Press`, ends
/// the gesture, and the event is an edge: consuming it leaves `Idle`.
pub proof fn lemma_short_tap(v: ButtonView, k: nat)
    requires
        spec_resting(v),
        1 <= k,
        k < v.pressing_threshold,
    ensures
        ({
            let done = spec_step(spec_run_level(v, true, k), false);
            &&& done.state == ButtonState::Press
            &&& done.counter == 0
            &&& !done.debounced
            &&& !done.reset_requested
            &&& spec_consume(done.state) == ButtonState::Idle
        }),
{
    lemma_hold_from_rest(v, k);
}

/// Long hold: pressed for at least the long-press threshold and released
/// before the counter wraps, a resting machine classifies the gesture as
/// `LongPress`, ends the gesture, and the event is an edge: consuming it
/// leaves `Idle`. The thresholds must be ordered, which the machine leaves to
/// its caller.
pub proof fn lemma_long_hold(v: ButtonView, k: nat)
    requires
        spec_resting(v),
        v.pressing_threshold <= v.long_press_threshold,
        1 <= k,
        v.long_press_threshold <= k,
        k < 0xffff,
    ensures
        ({
            let done = spec_step(spec_run_level(v, true, k), false);
            &&& done.state == ButtonState::LongPress
            &&& done.counter == 0
            &&& !done.debounced
            &&& !done.reset_requested
            &&& spec_consume(done.state) == ButtonState::Idle
        }),
{
    lemma_hold_from_rest(v, k);
}

/// Dead zone: a hold that leaves tap territory but whose release still falls
/// short of the long-press threshold is discarded, not reported: the release
/// classifies as `Idle` and the gesture ends.
pub proof fn lemma_dead_zone(v: ButtonView, k: nat)
    requires
        spec_resting(v),
        v.pressing_threshold < k,
        k + 1 < v.long_press_threshold,
    ensures
        ({
            let done = spec_step(spec_run_level(v, true, k), false);
            &&& done.state == ButtonState::Idle
            &&& done.counter == 0
            &&& !done.debounced
            &&& !done.reset_requested
        }),
{
    lemma_hold_from_rest(v, k);
}

/// Continuous `Pressing` indicator: once a hold from rest has lasted at least
/// the pressing threshold and has not yet been released, the machine reports
/// the `Pressing` level, and `Pressing` is not consumed by reading it.
pub proof fn lemma_pressing_indicator(v: ButtonView, k: nat)
    requires
        spec_resting(v),
        1 <= k <= 0xffff,
        v.pressing_threshold <= k,
    ensures
        ({
            let h = spec_run_level(v, true, k);
            &&& h.state == ButtonState::Pressing
            &&& h.debounced
            &&& spec_consume(h.state) == h.state
        }),
{
    lemma_hold_from_rest(v, k);
}

/// Reset cancellation: once a reset is requested, however long the hold goes
/// on (counter wrap included), the eventual release classifies as `Idle`
/// instead of `Press` or `LongPress`, the request is consumed, and the
/// gesture ends. The start state is arbitrary, so the request may be made at
/// any point of a gesture already in progress.
pub proof fn lemma_reset_cancels(v: ButtonView, k: nat)
    requires
        v.reset_requested,
        v.debounced || k >= 1,
    ensures
        ({
            let done = spec_step(spec_run_level(v, true, k), false);
            &&& done.state == ButtonState::Idle
            &&& done.counter == 0
            &&& !done.debounced
            &&& !done.reset_requested
        }),
{
    lemma_hold_frame(v, k);
}

} // verus!
