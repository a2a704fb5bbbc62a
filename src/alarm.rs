use vstd::prelude::*;
use crate::clock::{Moment, DAY_SECONDS, deadline_for, local_now, not_after};
use crate::state::{ControlState, Mode};

verus! {

/// Whether the alarm of `s` is due at `now`.
pub open spec fn alarm_due(s: ControlState, now: Moment) -> bool {
    s.alarm matches Some(d) && d.instant() <= now.instant()
}

/// The state once the alarm has gone off: random mode, no alarm.
pub open spec fn alarm_fired(s: ControlState) -> ControlState {
    ControlState { mode: Mode::Random, alarm: None, ..s }
}

/// One alarm cycle at local time `now`: when the alarm is due, switches to
/// random mode and clears the alarm, so that it goes off once.
pub fn alarm_check(state: &mut ControlState, now: Moment) -> (fired: bool)
    requires
        old(state).wf(),
        now.wf(),
    ensures
        final(state).wf(),
        fired == alarm_due(*old(state), now),
        fired ==> *final(state) == alarm_fired(*old(state)),
        !fired ==> *final(state) == *old(state),
{
    match state.alarm {
        Some(deadline) => {
            if not_after(deadline, now) {
                state.mode = Mode::Random;
                state.alarm = None;
                true
            } else {
                false
            }
        },
        None => false,
    }
}

/// One alarm cycle on the clock, with local time `offset` seconds from UTC.
pub fn alarm_poll(state: &mut ControlState, offset: i32) -> (fired: bool)
    requires
        old(state).wf(),
        -(DAY_SECONDS as int) < offset < DAY_SECONDS,
    ensures
        final(state).wf(),
        fired ==> old(state).alarm is Some && *final(state) == alarm_fired(*old(state)),
        !fired ==> *final(state) == *old(state),
{
    alarm_check(state, local_now(offset))
}

/// An alarm goes off once: after a cycle that fired it, no later cycle at any
/// time fires again or changes anything until a new alarm is set.
pub proof fn lemma_alarm_fires_once(s: ControlState, first: Moment, later: Moment)
    requires
        s.wf(),
        alarm_due(s, first),
    ensures
        alarm_fired(s).mode == Mode::Random,
        alarm_fired(s).alarm is None,
        !alarm_due(alarm_fired(s), later),
{
}

/// An alarm set for a second of the day that is not ahead of `now` is due
/// exactly one day after that second of today.
pub proof fn lemma_alarm_rolls_to_next_day(tod: u32, now: Moment)
    requires
        tod < DAY_SECONDS,
        now.has_next_day(),
        (Moment { day: now.day, secs: tod }).instant() <= now.instant(),
    ensures
        deadline_for(tod, now).instant() == (Moment { day: now.day, secs: tod }).instant()
            + DAY_SECONDS,
{
}

} // verus!
