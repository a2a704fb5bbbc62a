use vstd::prelude::*;
use crate::draw::uniform_below;
use crate::state::{ControlState, Mode};
use crate::waveform::PATTERN_COUNT;

verus! {

/// Seconds the scheduler waits between checks in paused and manual mode.
pub const CHECK_INTERVAL_SECS: u64 = 1;

/// Shortest dwell on a randomly drawn pattern, in seconds.
pub const MIN_DWELL_SECS: u64 = 2;

/// Longest dwell on a randomly drawn pattern, in seconds.
pub const MAX_DWELL_SECS: u64 = 15;

/// The effective pattern that mode `mode` selects, where `drawn` is the pattern
/// drawn for random mode.
pub open spec fn scheduled_pattern(mode: Mode, manual: usize, drawn: usize) -> usize {
    match mode {
        Mode::Paused => 0,
        Mode::Manual => manual,
        Mode::Random => drawn,
    }
}

/// How long the scheduler waits after a cycle in mode `mode`, where `dwell` is
/// the dwell drawn for random mode.
pub open spec fn scheduled_wait(mode: Mode, dwell: u64) -> u64 {
    match mode {
        Mode::Random => dwell,
        _ => CHECK_INTERVAL_SECS,
    }
}

/// One scheduler cycle with the random choices already made: sets the
/// effective pattern from the mode and returns the seconds to wait before the
/// next cycle. The mode itself is never changed.
pub fn schedule(state: &mut ControlState, drawn: usize, dwell: u64) -> (wait: u64)
    requires
        old(state).wf(),
        drawn < PATTERN_COUNT,
    ensures
        final(state).wf(),
        *final(state) == (ControlState {
            effective_pattern: scheduled_pattern(old(state).mode, old(state).manual_pattern, drawn),
            ..*old(state)
        }),
        wait == scheduled_wait(old(state).mode, dwell),
{
    match state.mode {
        Mode::Paused => {
            state.effective_pattern = 0;
            CHECK_INTERVAL_SECS
        },
        Mode::Manual => {
            state.effective_pattern = state.manual_pattern;
            CHECK_INTERVAL_SECS
        },
        Mode::Random => {
            state.effective_pattern = drawn;
            dwell
        },
    }
}

/// One scheduler cycle: in random mode draws a pattern uniformly from the
/// library and a dwell in `MIN_DWELL_SECS..=MAX_DWELL_SECS`; in the other modes
/// draws nothing. Returns the seconds to wait before the next cycle.
pub fn scheduler_cycle(state: &mut ControlState) -> (wait: u64)
    requires
        old(state).wf(),
    ensures
        final(state).wf(),
        final(state).mode == old(state).mode,
        final(state).manual_pattern == old(state).manual_pattern,
        final(state).strength == old(state).strength,
        final(state).alarm == old(state).alarm,
        final(state).hold == old(state).hold,
        old(state).mode != Mode::Random ==> final(state).effective_pattern == scheduled_pattern(
            old(state).mode,
            old(state).manual_pattern,
            0,
        ) && wait == CHECK_INTERVAL_SECS,
        old(state).mode == Mode::Random ==> MIN_DWELL_SECS <= wait <= MAX_DWELL_SECS,
{
    let mut drawn: usize = 0;
    let mut dwell: u64 = CHECK_INTERVAL_SECS;
    if state.mode == Mode::Random {
        drawn = uniform_below(0, PATTERN_COUNT as u64) as usize;
        dwell = uniform_below(MIN_DWELL_SECS, MAX_DWELL_SECS + 1);
    }
    schedule(state, drawn, dwell)
}

} // verus!
