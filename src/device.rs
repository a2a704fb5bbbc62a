use vstd::prelude::*;
use crate::draw::uniform_below;
use crate::state::ControlState;
use crate::waveform::{pattern, waveform, is_hold_level, Sample, RANDOM_HOLD_PATTERN};

verus! {

/// Emitted values are intensities in units of `1 / OUTPUT_SCALE`: a channel at
/// full level and full strength emits `OUTPUT_SCALE`.
pub const OUTPUT_SCALE: u64 = 100_000;

/// Which command a device controller sends.
#[derive(Clone, Copy, Debug, PartialEq, Eq, Structural)]
pub enum Phase {
    /// One value per channel.
    MultiChannel,
    /// The device takes one channel only: the first channel's value.
    SingleChannel,
    /// The device is gone; nothing more is sent.
    Stopped,
}

/// A command for the device, values in units of `1 / OUTPUT_SCALE`.
#[derive(Clone, Copy, Debug, PartialEq, Eq, Structural)]
pub enum DeviceCommand {
    Vector(u64, u64),
    Scalar(u64),
}

/// What the device made of a command.
#[derive(Clone, Copy, Debug, PartialEq, Eq, Structural)]
pub enum SendResult {
    Sent,
    /// The device has fewer channels than the command addressed.
    ChannelMismatch,
    /// Any other failure, taken as a disconnect.
    DeviceError,
}

/// The state of one device's control loop.
#[derive(Clone, Copy, Debug, PartialEq, Eq, Structural)]
pub struct Controller {
    pub phase: Phase,
    /// Logical time fed to the waveforms; one step per command sent.
    pub tick: u64,
}

/// A channel level in percent scaled by a strength in thousandths.
pub open spec fn scaled(level: u32, strength: u32) -> u64 {
    (level * strength) as u64
}

/// The command that `phase` sends for sample `s` at strength `strength`.
pub open spec fn command_for(phase: Phase, s: Sample, strength: u32) -> DeviceCommand {
    match phase {
        Phase::MultiChannel => DeviceCommand::Vector(scaled(s.ch0, strength), scaled(s.ch1, strength)),
        _ => DeviceCommand::Scalar(scaled(s.ch0, strength)),
    }
}

/// The controller after the device answered `result`: a sent command moves time
/// on; a channel mismatch on a multi-channel command falls back to
/// single-channel commands for good; any other failure stops the loop.
pub open spec fn after_send(c: Controller, result: SendResult) -> Controller {
    match result {
        SendResult::Sent => Controller { tick: (c.tick + 1) as u64, ..c },
        SendResult::ChannelMismatch => match c.phase {
            Phase::MultiChannel => Controller { phase: Phase::SingleChannel, ..c },
            _ => Controller { phase: Phase::Stopped, ..c },
        },
        SendResult::DeviceError => Controller { phase: Phase::Stopped, ..c },
    }
}

/// The controller after the device answered each of `results` in turn.
pub open spec fn after_sends(c: Controller, results: Seq<SendResult>) -> Controller
    decreases results.len(),
{
    if results.len() == 0 {
        c
    } else {
        after_sends(after_send(c, results[0]), results.drop_first())
    }
}

/// Whether sampling the effective pattern at `tick` draws a new held level.
pub open spec fn draws_hold(s: ControlState, tick: u64) -> bool {
    s.effective_pattern == RANDOM_HOLD_PATTERN && tick % 3 == 0
}

/// The sample of the effective pattern at `tick`. The random-hold waveform draws
/// a new level in `{0, 10, ..., 90}` percent on every third tick and keeps it
/// in the state; nothing else in the state changes.
pub fn sample_effective(state: &mut ControlState, tick: u64) -> (r: Sample)
    requires
        old(state).wf(),
    ensures
        final(state).wf(),
        *final(state) == (ControlState { hold: final(state).hold, ..*old(state) }),
        draws_hold(*old(state), tick) ==> is_hold_level(final(state).hold),
        !draws_hold(*old(state), tick) ==> final(state).hold == old(state).hold,
        r == waveform(old(state).effective_pattern as nat, tick as nat, final(state).hold),
        r.in_range(),
{
    if state.effective_pattern == RANDOM_HOLD_PATTERN && tick % 3 == 0 {
        let tenth = uniform_below(0, 10);
        state.hold = (tenth * 10) as u32;
    }
    pattern(state.effective_pattern, tick, state.hold)
}

impl Controller {
    /// A controller that has sent nothing yet.
    pub fn new() -> (r: Controller)
        ensures
            r.phase == Phase::MultiChannel,
            r.tick == 0,
    {
        Controller { phase: Phase::MultiChannel, tick: 0 }
    }

    /// The next command to send: the effective pattern at this controller's
    /// tick, every channel scaled by the strength. None once stopped.
    pub fn next_command(&self, state: &mut ControlState) -> (r: Option<DeviceCommand>)
        requires
            old(state).wf(),
        ensures
            final(state).wf(),
            self.phase == Phase::Stopped ==> r is None && *final(state) == *old(state),
            self.phase != Phase::Stopped ==> {
                &&& *final(state) == (ControlState { hold: final(state).hold, ..*old(state) })
                &&& draws_hold(*old(state), self.tick) ==> is_hold_level(final(state).hold)
                &&& !draws_hold(*old(state), self.tick) ==> final(state).hold == old(state).hold
                &&& r == Some(
                    command_for(
                        self.phase,
                        waveform(old(state).effective_pattern as nat, self.tick as nat, final(state).hold),
                        old(state).strength,
                    ),
                )
            },
    {
        if self.phase == Phase::Stopped {
            return None;
        }
        let strength = state.strength;
        let s = sample_effective(state, self.tick);
        proof {
            lemma_scaled_fits(s.ch0, strength);
            lemma_scaled_fits(s.ch1, strength);
        }
        let ch0 = s.ch0 as u64 * strength as u64;
        if self.phase == Phase::MultiChannel {
            Some(DeviceCommand::Vector(ch0, s.ch1 as u64 * strength as u64))
        } else {
            Some(DeviceCommand::Scalar(ch0))
        }
    }

    /// Takes in what the device answered to the last command.
    pub fn record(&mut self, result: SendResult)
        requires
            old(self).phase != Phase::Stopped,
            result == SendResult::Sent ==> old(self).tick < u64::MAX,
        ensures
            *final(self) == after_send(*old(self), result),
    {
        match result {
            SendResult::Sent => {
                self.tick = self.tick + 1;
            },
            SendResult::ChannelMismatch => {
                if self.phase == Phase::MultiChannel {
                    self.phase = Phase::SingleChannel;
                } else {
                    self.phase = Phase::Stopped;
                }
            },
            SendResult::DeviceError => {
                self.phase = Phase::Stopped;
            },
        }
    }
}

proof fn lemma_scaled_fits(level: u32, strength: u32)
    requires
        level <= 100,
    ensures
        level * strength <= u64::MAX,
{
    assert(level * strength <= 100 * u32::MAX) by (nonlinear_arith)
        requires
            level <= 100,
            strength <= u32::MAX,
    ;
}

/// While the random-hold waveform is effective, sampling draws a new level at
/// the first tick of each run of three and keeps the held one at the other two.
pub proof fn lemma_hold_drawn_once_per_triple(s: ControlState, k: u64)
    requires
        s.effective_pattern == RANDOM_HOLD_PATTERN,
        3 * k + 2 <= u64::MAX,
    ensures
        draws_hold(s, (3 * k) as u64),
        !draws_hold(s, (3 * k + 1) as u64),
        !draws_hold(s, (3 * k + 2) as u64),
{
    assert((3 * k) % 3 == 0 && (3 * k + 1) % 3 == 1 && (3 * k + 2) % 3 == 2) by (nonlinear_arith);
}

/// Once a controller has left the multi-channel phase it never returns to it,
/// whatever the device answers afterwards.
pub proof fn lemma_single_channel_is_final(c: Controller, results: Seq<SendResult>)
    requires
        c.phase != Phase::MultiChannel,
    ensures
        after_sends(c, results).phase != Phase::MultiChannel,
    decreases results.len(),
{
    if results.len() > 0 {
        lemma_single_channel_is_final(after_send(c, results[0]), results.drop_first());
    }
}

/// A device that rejects the first multi-channel command for its channel count
/// is sent single-channel commands only from then on, whatever it answers.
pub proof fn lemma_no_vector_after_mismatch(
    c: Controller,
    results: Seq<SendResult>,
    s: Sample,
    strength: u32,
)
    requires
        c.phase == Phase::MultiChannel,
    ensures
        after_send(c, SendResult::ChannelMismatch).phase == Phase::SingleChannel,
        after_sends(after_send(c, SendResult::ChannelMismatch), results).phase
            != Phase::MultiChannel,
        !(command_for(
            after_sends(after_send(c, SendResult::ChannelMismatch), results).phase,
            s,
            strength,
        ) is Vector),
{
    lemma_single_channel_is_final(after_send(c, SendResult::ChannelMismatch), results);
}

/// A controller sends single-channel commands only after a channel mismatch:
/// from the multi-channel phase, answers that hold no mismatch never lead to
/// the single-channel phase, and a device error stops the loop.
pub proof fn lemma_scalar_only_after_mismatch(c: Controller, results: Seq<SendResult>)
    requires
        c.phase == Phase::MultiChannel,
        forall|i: int| 0 <= i < results.len() ==> results[i] != SendResult::ChannelMismatch,
    ensures
        after_sends(c, results).phase != Phase::SingleChannel,
        after_send(c, SendResult::DeviceError).phase == Phase::Stopped,
    decreases results.len(),
{
    if results.len() > 0 {
        let next = after_send(c, results[0]);
        if next.phase == Phase::MultiChannel {
            assert forall|i: int| 0 <= i < results.drop_first().len() implies
                results.drop_first()[i] != SendResult::ChannelMismatch by {
                assert(results.drop_first()[i] == results[i + 1]);
            }
            lemma_scalar_only_after_mismatch(next, results.drop_first());
        } else {
            lemma_stopped_is_final(next, results.drop_first());
        }
    }
}

/// A stopped controller stays stopped, whatever the device answers.
pub proof fn lemma_stopped_is_final(c: Controller, results: Seq<SendResult>)
    requires
        c.phase == Phase::Stopped,
    ensures
        after_sends(c, results).phase == Phase::Stopped,
    decreases results.len(),
{
    if results.len() > 0 {
        lemma_stopped_is_final(after_send(c, results[0]), results.drop_first());
    }
}

/// At strength zero every value of every command is zero, whatever the pattern.
pub proof fn lemma_zero_strength_is_silent(phase: Phase, s: Sample)
    ensures
        command_for(phase, s, 0) == DeviceCommand::Vector(0, 0) || command_for(phase, s, 0)
            == DeviceCommand::Scalar(0),
{
}

} // verus!
