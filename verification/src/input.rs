//! DAS/ARR timing logic for held movement keys.
//!
//! DAS (Delayed Auto Shift) is the hold time before a key starts
//! repeating; ARR (Auto Repeat Rate) is the interval between repeats.
//! The key-event plumbing lives in the application shell; the timing
//! decision is made here, on plain clock readings.

use vstd::prelude::*;

verus! {

/// The press-tracking state of one held movement key.
#[derive(Debug, Clone, Copy, PartialEq, Eq, Structural)]
pub struct KeyPressState {
    /// Clock reading of the initial press.
    pub first_press_ms: u64,
    /// Clock reading of the last key event seen (for release detection).
    pub last_seen_ms: u64,
    /// Whether the DAS delay has elapsed and repeating has begun.
    pub das_triggered: bool,
    /// Clock reading of the last auto-repeat, once repeating.
    pub last_arr_ms: Option<u64>,
}

impl KeyPressState {
    /// A fresh press at a clock reading.
    pub fn pressed(now_ms: u64) -> (s: KeyPressState)
        ensures
            s == (KeyPressState {
                first_press_ms: now_ms,
                last_seen_ms: now_ms,
                das_triggered: false,
                last_arr_ms: None::<u64>,
            }),
    {
        KeyPressState {
            first_press_ms: now_ms,
            last_seen_ms: now_ms,
            das_triggered: false,
            last_arr_ms: None,
        }
    }
}

/// What one DAS/ARR poll decides: nothing before the DAS delay elapses;
/// one trigger the moment it has (starting the repeat clock); then one
/// trigger whenever a full ARR interval has passed since the last repeat.
pub open spec fn spec_das_arr(
    state: KeyPressState,
    now_ms: u64,
    das_ms: u64,
    arr_ms: u64,
) -> (KeyPressState, bool) {
    let held = if now_ms >= state.first_press_ms {
        now_ms - state.first_press_ms
    } else {
        0int
    };
    if held >= das_ms {
        if !state.das_triggered {
            (
                KeyPressState { das_triggered: true, last_arr_ms: Some(now_ms), ..state },
                true,
            )
        } else {
            match state.last_arr_ms {
                Some(last) => {
                    let since = if now_ms >= last {
                        now_ms - last
                    } else {
                        0int
                    };
                    if since >= arr_ms {
                        (KeyPressState { last_arr_ms: Some(now_ms), ..state }, true)
                    } else {
                        (state, false)
                    }
                },
                None => (state, false),
            }
        }
    } else {
        (state, false)
    }
}

/// Poll the DAS/ARR logic for a held key; returns true when the hold
/// should trigger one repeated action at this clock reading.
pub fn process_das_arr(
    state: &mut KeyPressState,
    now_ms: u64,
    das_ms: u64,
    arr_ms: u64,
) -> (trigger: bool)
    ensures
        (*final(state), trigger) == spec_das_arr(*old(state), now_ms, das_ms, arr_ms),
{
    let held_duration = now_ms.saturating_sub(state.first_press_ms);

    if held_duration >= das_ms {
        if !state.das_triggered {
            // First trigger once the DAS delay has elapsed
            state.das_triggered = true;
            state.last_arr_ms = Some(now_ms);
            return true;
        }
        if let Some(last) = state.last_arr_ms {
            // Subsequent ARR triggers
            if now_ms.saturating_sub(last) >= arr_ms {
                state.last_arr_ms = Some(now_ms);
                return true;
            }
        }
    }

    false
}

/// Repeats never fire before the DAS delay has elapsed since the first
/// press.
pub proof fn lemma_no_repeat_before_das(
    state: KeyPressState,
    now_ms: u64,
    das_ms: u64,
    arr_ms: u64,
)
    requires
        state.first_press_ms <= now_ms < state.first_press_ms + das_ms,
    ensures
        !spec_das_arr(state, now_ms, das_ms, arr_ms).1,
{
}

} // verus!
