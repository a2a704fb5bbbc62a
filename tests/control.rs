use pulse_driver::alarm::{alarm_check, alarm_poll};
use pulse_driver::clock::{alarm_deadline, shift, Moment};
use pulse_driver::device::{Controller, DeviceCommand, Phase, SendResult, OUTPUT_SCALE};
use pulse_driver::scheduler::{schedule, scheduler_cycle, MAX_DWELL_SECS, MIN_DWELL_SECS};
use pulse_driver::state::{ControlState, Mode};

fn at(day: i64, secs: u32) -> Moment {
    Moment { day, secs }
}

#[test]
fn initial_state() {
    let st = ControlState::new();
    assert_eq!(st.mode, Mode::Manual);
    assert_eq!(st.manual_pattern, 1);
    assert_eq!(st.effective_pattern, 1);
    assert_eq!(st.strength, 1000);
    assert_eq!(st.alarm, None);
}

#[test]
fn midnight_alarm_rolls_to_next_day() {
    let now = at(100, 3600);
    let d = alarm_deadline(0, now);
    assert_eq!(d, at(101, 0));
    assert_eq!((d.day - 100) * 86400 + d.secs as i64, 86400);
}

#[test]
fn alarm_later_today_stays_today() {
    assert_eq!(alarm_deadline(7200, at(5, 3600)), at(5, 7200));
    assert_eq!(alarm_deadline(3600, at(5, 3600)), at(6, 3600));
}

#[test]
fn alarm_fires_exactly_once() {
    let mut st = ControlState::new();
    st.alarm = Some(at(10, 500));
    assert!(!alarm_check(&mut st, at(10, 499)));
    assert_eq!(st.mode, Mode::Manual);
    assert!(alarm_check(&mut st, at(10, 500)));
    assert_eq!(st.mode, Mode::Random);
    assert_eq!(st.alarm, None);
    st.mode = Mode::Paused;
    let before = st;
    assert!(!alarm_check(&mut st, at(11, 0)));
    assert_eq!(st, before);
}

#[test]
fn alarm_poll_without_alarm_changes_nothing() {
    let mut st = ControlState::new();
    let before = st;
    assert!(!alarm_poll(&mut st, 8 * 3600));
    assert_eq!(st, before);
}

#[test]
fn alarm_poll_fires_past_deadline() {
    let mut st = ControlState::new();
    st.alarm = Some(at(0, 0));
    assert!(alarm_poll(&mut st, 0));
    assert_eq!(st.mode, Mode::Random);
    assert_eq!(st.alarm, None);
}

#[test]
fn shift_crosses_days() {
    assert_eq!(shift(at(7, 80000), 8 * 3600), Some(at(8, 80000 + 28800 - 86400)));
    assert_eq!(shift(at(7, 100), -200), Some(at(6, 86300)));
    assert_eq!(shift(at(7, 100), 200), Some(at(7, 300)));
    assert_eq!(shift(at(i64::MAX - 1, 86000), 1000), None);
    assert_eq!(shift(at(i64::MIN, 0), -1), None);
}

#[test]
fn scheduler_follows_mode() {
    let mut st = ControlState::new();
    st.mode = Mode::Paused;
    st.manual_pattern = 4;
    assert_eq!(schedule(&mut st, 7, 9), 1);
    assert_eq!(st.effective_pattern, 0);
    st.mode = Mode::Manual;
    assert_eq!(schedule(&mut st, 7, 9), 1);
    assert_eq!(st.effective_pattern, 4);
    st.mode = Mode::Random;
    assert_eq!(schedule(&mut st, 7, 9), 9);
    assert_eq!(st.effective_pattern, 7);
    assert_eq!(st.mode, Mode::Random);
}

#[test]
fn random_cycle_draws_in_bounds() {
    let mut st = ControlState::new();
    st.mode = Mode::Random;
    for _ in 0..200 {
        let wait = scheduler_cycle(&mut st);
        assert!(wait >= MIN_DWELL_SECS && wait <= MAX_DWELL_SECS);
        assert!(st.effective_pattern < 11);
        assert_eq!(st.mode, Mode::Random);
    }
}

#[test]
fn mismatch_falls_back_to_scalar_for_good() {
    let mut st = ControlState::new();
    st.effective_pattern = 2;
    let mut c = Controller::new();
    assert_eq!(c.next_command(&mut st), Some(DeviceCommand::Vector(10 * 1000, 100 * 1000)));
    c.record(SendResult::ChannelMismatch);
    assert_eq!(c.phase, Phase::SingleChannel);
    assert_eq!(c.tick, 0);
    for i in 0u64..20 {
        let cmd = c.next_command(&mut st).unwrap();
        assert_eq!(cmd, DeviceCommand::Scalar(((i % 10) + 1) * 10 * 1000));
        c.record(SendResult::Sent);
    }
    c.record(SendResult::DeviceError);
    assert_eq!(c.phase, Phase::Stopped);
    assert_eq!(c.next_command(&mut st), None);
}

#[test]
fn device_error_in_multi_phase_stops() {
    let mut st = ControlState::new();
    let mut c = Controller::new();
    c.record(SendResult::Sent);
    c.record(SendResult::DeviceError);
    assert_eq!(c.phase, Phase::Stopped);
    assert_eq!(c.tick, 1);
    assert_eq!(c.next_command(&mut st), None);
}

#[test]
fn vector_commands_continue_without_mismatch() {
    let mut st = ControlState::new();
    let mut c = Controller::new();
    for _ in 0..30 {
        assert!(matches!(c.next_command(&mut st), Some(DeviceCommand::Vector(_, _))));
        c.record(SendResult::Sent);
    }
    assert_eq!(c.phase, Phase::MultiChannel);
    assert_eq!(c.tick, 30);
}

#[test]
fn mismatch_in_single_phase_stops() {
    let mut c = Controller::new();
    c.record(SendResult::ChannelMismatch);
    c.record(SendResult::ChannelMismatch);
    assert_eq!(c.phase, Phase::Stopped);
}

#[test]
fn zero_strength_silences_every_pattern() {
    for id in 0..11usize {
        let mut st = ControlState::new();
        st.strength = 0;
        st.effective_pattern = id;
        let mut c = Controller::new();
        for _ in 0..40 {
            assert_eq!(c.next_command(&mut st), Some(DeviceCommand::Vector(0, 0)));
            c.record(SendResult::Sent);
        }
        c.record(SendResult::ChannelMismatch);
        assert_eq!(c.next_command(&mut st), Some(DeviceCommand::Scalar(0)));
    }
}

#[test]
fn full_strength_full_level_is_output_scale() {
    let mut st = ControlState::new();
    let c = Controller::new();
    assert_eq!(c.next_command(&mut st), Some(DeviceCommand::Vector(OUTPUT_SCALE, OUTPUT_SCALE)));
    st.strength = 500;
    st.effective_pattern = 5;
    assert_eq!(c.next_command(&mut st), Some(DeviceCommand::Vector(20 * 500, 50 * 500)));
}
