use vstd::prelude::*;
use crate::waveform::{PATTERN_COUNT, FULL, is_hold_level};
use crate::clock::Moment;

verus! {

/// How the effective pattern is chosen.
#[derive(Clone, Copy, Debug, PartialEq, Eq, Structural)]
pub enum Mode {
    /// Output stopped: the effective pattern is the all-zero waveform.
    Paused,
    /// The effective pattern is the one the operator selected.
    Manual,
    /// The effective pattern is redrawn at random after random dwell times.
    Random,
}

/// Strength at which output runs unscaled, in thousandths.
pub const FULL_STRENGTH: u32 = 1000;

/// The shared control state: what the console and the alarm write, what the
/// scheduler and the device controllers read.
#[derive(Clone, Copy, Debug, PartialEq, Eq, Structural)]
pub struct ControlState {
    pub mode: Mode,
    /// The pattern the operator asked for.
    pub manual_pattern: usize,
    /// The pattern that currently drives output, chosen by the scheduler.
    pub effective_pattern: usize,
    /// Multiplier applied to every channel, in thousandths.
    pub strength: u32,
    /// When set, the moment at which the alarm switches to random mode.
    pub alarm: Option<Moment>,
    /// The level held by the random-hold waveform, in percent.
    pub hold: u32,
}

impl ControlState {
    pub open spec fn wf(self) -> bool {
        &&& self.manual_pattern < PATTERN_COUNT
        &&& self.effective_pattern < PATTERN_COUNT
        &&& self.hold <= FULL
        &&& match self.alarm {
            Some(m) => m.wf(),
            None => true,
        }
    }

    /// The state at start-up: manual mode on the full waveform, full strength, no alarm.
    pub fn new() -> (r: ControlState)
        ensures
            r.wf(),
            r.mode == Mode::Manual,
            r.manual_pattern == 1,
            r.effective_pattern == 1,
            r.strength == FULL_STRENGTH,
            r.alarm is None,
            r.hold == 50,
            is_hold_level(r.hold),
    {
        ControlState {
            mode: Mode::Manual,
            manual_pattern: 1,
            effective_pattern: 1,
            strength: FULL_STRENGTH,
            alarm: None,
            hold: 50,
        }
    }
}

} // verus!
