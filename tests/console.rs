use pulse_driver::clock::Moment;
use pulse_driver::console::{handle_line, parse_command, time_of_day, Command, CommandError};
use pulse_driver::scheduler::schedule;
use pulse_driver::state::{ControlState, Mode};

fn chars(s: &str) -> Vec<char> {
    s.chars().collect()
}

fn parse(s: &str) -> Result<Command, CommandError> {
    parse_command(&chars(s))
}

const NOW: Moment = Moment { day: 1000, secs: 3600 };

#[test]
fn one_word_commands() {
    assert_eq!(parse("pause"), Ok(Command::Pause));
    assert_eq!(parse("high\r\n"), Ok(Command::High));
    assert_eq!(parse("  random "), Ok(Command::Random));
    assert_eq!(parse("show_alarm"), Ok(Command::ShowAlarm));
    assert_eq!(parse(""), Ok(Command::Blank));
    assert_eq!(parse(" \t\r\n"), Ok(Command::Blank));
}

#[test]
fn unknown_and_wrong_arity() {
    assert_eq!(parse("foobar"), Err(CommandError::Unknown));
    assert_eq!(parse("pause now"), Err(CommandError::Unknown));
    assert_eq!(parse("pattern"), Err(CommandError::Unknown));
    assert_eq!(parse("pattern 1 2"), Err(CommandError::Unknown));
    assert_eq!(parse("Pause"), Err(CommandError::Unknown));
}

#[test]
fn pattern_ids() {
    assert_eq!(parse("pattern 5"), Ok(Command::Pattern(5)));
    assert_eq!(parse("pattern\t10"), Ok(Command::Pattern(10)));
    assert_eq!(parse("pattern 007"), Ok(Command::Pattern(7)));
    assert_eq!(parse("pattern 11"), Err(CommandError::BadPattern));
    assert_eq!(parse("pattern 99999999999999999999999"), Err(CommandError::BadPattern));
    assert_eq!(parse("pattern -1"), Err(CommandError::BadPattern));
    assert_eq!(parse("pattern x"), Err(CommandError::BadPattern));
}

#[test]
fn strengths() {
    assert_eq!(parse("strength 0.5"), Ok(Command::Strength(500)));
    assert_eq!(parse("strength 1"), Ok(Command::Strength(1000)));
    assert_eq!(parse("strength 1.0"), Ok(Command::Strength(1000)));
    assert_eq!(parse("strength 0.0"), Ok(Command::Strength(0)));
    assert_eq!(parse("strength 1.25"), Ok(Command::Strength(1250)));
    assert_eq!(parse("strength 0.125"), Ok(Command::Strength(125)));
    assert_eq!(parse("strength .5"), Ok(Command::Strength(500)));
    assert_eq!(parse("strength 2."), Ok(Command::Strength(2000)));
    assert_eq!(parse("strength 1000000"), Ok(Command::Strength(1_000_000_000)));
    assert_eq!(parse("strength 1000001"), Err(CommandError::BadStrength));
    assert_eq!(parse("strength 0.1234"), Err(CommandError::BadStrength));
    assert_eq!(parse("strength ."), Err(CommandError::BadStrength));
    assert_eq!(parse("strength abc"), Err(CommandError::BadStrength));
    assert_eq!(parse("strength -0.5"), Err(CommandError::BadStrength));
    assert_eq!(parse("strength 1.2.3"), Err(CommandError::BadStrength));
}

#[test]
fn alarm_times() {
    assert_eq!(parse("alarm 07:30:00"), Ok(Command::Alarm(7 * 3600 + 30 * 60)));
    assert_eq!(parse("alarm 00:00:00"), Ok(Command::Alarm(0)));
    assert_eq!(parse("alarm 23:59:59"), Ok(Command::Alarm(86399)));
    assert_eq!(parse("alarm 24:00:00"), Err(CommandError::BadTime));
    assert_eq!(parse("alarm 12:61:00"), Err(CommandError::BadTime));
    assert_eq!(parse("alarm noon"), Err(CommandError::BadTime));
    assert_eq!(parse("alarm 7:30:00"), Ok(Command::Alarm(7 * 3600 + 30 * 60)));
    assert_eq!(parse("alarm 07:30:00.5"), Ok(Command::Alarm(7 * 3600 + 30 * 60)));
    assert_eq!(parse("alarm 07:3:00"), Err(CommandError::BadTime));
    assert_eq!(parse("alarm 07:30"), Err(CommandError::BadTime));
    assert_eq!(parse("alarm 123:00:00"), Err(CommandError::BadTime));
}

#[test]
fn time_of_day_values() {
    assert_eq!(time_of_day(Some((1, 2, 3))), Ok(3723));
    assert_eq!(time_of_day(Some((24, 0, 0))), Err(CommandError::BadTime));
    assert_eq!(time_of_day(None), Err(CommandError::BadTime));
}

#[test]
fn unknown_command_leaves_state_unchanged() {
    let mut st = ControlState::new();
    st.alarm = Some(Moment { day: 3, secs: 9 });
    st.strength = 300;
    let before = st;
    assert_eq!(handle_line(&mut st, &chars("foobar"), NOW), Err(CommandError::Unknown));
    assert_eq!(st, before);
    assert_eq!(handle_line(&mut st, &chars("pattern 12"), NOW), Err(CommandError::BadPattern));
    assert_eq!(st, before);
    assert_eq!(handle_line(&mut st, &chars("strength x"), NOW), Err(CommandError::BadStrength));
    assert_eq!(handle_line(&mut st, &chars("alarm 99:00:00"), NOW), Err(CommandError::BadTime));
    assert_eq!(st, before);
}

#[test]
fn pause_then_pattern_reaches_effective() {
    let mut st = ControlState::new();
    st.effective_pattern = 3;
    handle_line(&mut st, &chars("pause"), NOW).unwrap();
    assert_eq!(st.mode, Mode::Paused);
    assert_eq!(st.manual_pattern, 0);
    handle_line(&mut st, &chars("pattern 5"), NOW).unwrap();
    assert_eq!(st.mode, Mode::Manual);
    assert_eq!(st.effective_pattern, 3);
    schedule(&mut st, 0, 0);
    assert_eq!(st.effective_pattern, 5);
}

#[test]
fn commands_change_state() {
    let mut st = ControlState::new();
    handle_line(&mut st, &chars("random"), NOW).unwrap();
    assert_eq!(st.mode, Mode::Random);
    handle_line(&mut st, &chars("high"), NOW).unwrap();
    assert_eq!((st.mode, st.manual_pattern), (Mode::Manual, 1));
    handle_line(&mut st, &chars("strength 0.0"), NOW).unwrap();
    assert_eq!(st.strength, 0);
    handle_line(&mut st, &chars("alarm 00:00:00"), NOW).unwrap();
    assert_eq!(st.alarm, Some(Moment { day: 1001, secs: 0 }));
    handle_line(&mut st, &chars("alarm 02:00:00"), NOW).unwrap();
    assert_eq!(st.alarm, Some(Moment { day: 1000, secs: 7200 }));
    let before = st;
    assert_eq!(handle_line(&mut st, &chars("show_alarm"), NOW), Ok(Command::ShowAlarm));
    assert_eq!(st, before);
}
