use vstd::prelude::*;
use time::Time;
use crate::clock::{Moment, DAY_SECONDS, alarm_deadline, deadline_for};
use crate::scheduler::scheduled_pattern;
use crate::state::{ControlState, Mode};
use crate::text::{
    split_words, words, same_chars, is_digit, digits_value, digit_run, digit_run_end,
    digits_capped,
};
use crate::waveform::PATTERN_COUNT;

verus! {

/// One operator command.
#[derive(Clone, Copy, Debug, PartialEq, Eq, Structural)]
pub enum Command {
    /// A line with no words: nothing to do.
    Blank,
    Pause,
    High,
    Random,
    ShowAlarm,
    Pattern(usize),
    /// A strength in thousandths: `0.5` is 500, `1` is 1000.
    Strength(u32),
    /// An alarm at this second of the day.
    Alarm(u32),
}

/// Why a line is not a command.
#[derive(Clone, Copy, Debug, PartialEq, Eq, Structural)]
pub enum CommandError {
    /// Not a known command, or the wrong number of words for it.
    Unknown,
    /// Not the id of a waveform of the library.
    BadPattern,
    /// Not a strength: digits, optionally with `.` and up to three decimals; no
    /// sign and no exponent.
    BadStrength,
    /// Not a time of day `HH:MM:SS`.
    BadTime,
}

/// The largest whole part a strength may have.
pub const MAX_STRENGTH_WHOLE: u64 = 1_000_000;

impl Command {
    pub open spec fn wf(self) -> bool {
        match self {
            Command::Pattern(n) => n < PATTERN_COUNT,
            Command::Alarm(t) => t < DAY_SECONDS,
            _ => true,
        }
    }
}

pub open spec fn kw_pause() -> Seq<char> {
    seq!['p', 'a', 'u', 's', 'e']
}

pub open spec fn kw_high() -> Seq<char> {
    seq!['h', 'i', 'g', 'h']
}

pub open spec fn kw_random() -> Seq<char> {
    seq!['r', 'a', 'n', 'd', 'o', 'm']
}

pub open spec fn kw_show_alarm() -> Seq<char> {
    seq!['s', 'h', 'o', 'w', '_', 'a', 'l', 'a', 'r', 'm']
}

pub open spec fn kw_pattern() -> Seq<char> {
    seq!['p', 'a', 't', 't', 'e', 'r', 'n']
}

pub open spec fn kw_strength() -> Seq<char> {
    seq!['s', 't', 'r', 'e', 'n', 'g', 't', 'h']
}

pub open spec fn kw_alarm() -> Seq<char> {
    seq!['a', 'l', 'a', 'r', 'm']
}

/// The waveform id that `w` writes in plain decimal digits (no sign), if it is one.
pub open spec fn pattern_id_of(w: Seq<char>) -> Option<usize> {
    if w.len() > 0 && digit_run(w, 0) == w.len() && digits_value(w) < PATTERN_COUNT {
        Some(digits_value(w) as usize)
    } else {
        None
    }
}

/// Thousandths per unit of the last decimal written, for `n` decimals.
pub open spec fn decimal_weight(n: int) -> nat {
    if n <= 0 {
        1000
    } else if n == 1 {
        100
    } else if n == 2 {
        10
    } else {
        1
    }
}

/// The strength, in thousandths, that `w` writes: a whole part of digits, then
/// optionally `.` and up to three decimals, with at least one digit in all. A
/// sign, an exponent or a fourth decimal is refused, as is a whole part above
/// `MAX_STRENGTH_WHOLE`.
pub open spec fn strength_of(w: Seq<char>) -> Option<u32> {
    let p = digit_run(w, 0);
    let whole = digits_value(w.subrange(0, p));
    if p == w.len() {
        if p > 0 && whole <= MAX_STRENGTH_WHOLE {
            Some((whole * 1000) as u32)
        } else {
            None
        }
    } else if w[p] == '.' {
        let q = digit_run(w, p + 1);
        let n = q - (p + 1);
        if q == w.len() && p + n > 0 && n <= 3 && whole <= MAX_STRENGTH_WHOLE {
            Some((whole * 1000 + digits_value(w.subrange(p + 1, q)) * decimal_weight(n)) as u32)
        } else {
            None
        }
    } else {
        None
    }
}

/// How many digits the hour of a clock text takes: the leading digits of `s`,
/// at most two.
pub open spec fn hour_digits(s: Seq<char>) -> int {
    if s.len() >= 2 && is_digit(s[0]) && is_digit(s[1]) {
        2
    } else if s.len() >= 1 && is_digit(s[0]) {
        1
    } else {
        0
    }
}

/// The hour, minute and second that `s` writes as `H:MM:SS` or `HH:MM:SS`,
/// when they are a time of day; what follows the seconds is not read.
pub open spec fn clock_fields(s: Seq<char>) -> Option<(u8, u8, u8)> {
    let n = hour_digits(s);
    let r = s.subrange(n, s.len() as int);
    if n > 0 && r.len() >= 6 && r[0] == ':' && is_digit(r[1]) && is_digit(r[2]) && r[3] == ':'
        && is_digit(r[4]) && is_digit(r[5]) {
        let h = digits_value(s.subrange(0, n));
        let m = digits_value(r.subrange(1, 3));
        let sec = digits_value(r.subrange(4, 6));
        if h < 24 && m < 60 && sec < 60 {
            Some((h as u8, m as u8, sec as u8))
        } else {
            None
        }
    } else {
        None
    }
}

/// Relies on time's `Time::parse(s, "%T")`: an hour of one or two digits, `:`,
/// two digits of minute, `:`, two digits of second, the rest of the text
/// unread; `Time::try_from_hms` then refuses an hour from 24 or a minute or
/// second from 60.
#[verifier::external_body]
fn parse_clock(w: &[char]) -> (r: Option<(u8, u8, u8)>)
    ensures
        r == clock_fields(w@),
{
    let s: String = w.iter().collect();
    Time::parse(&s, "%T").ok().map(|t| (t.hour(), t.minute(), t.second()))
}

/// The second of the day of a parsed clock time.
pub open spec fn tod_of(parsed: Option<(u8, u8, u8)>) -> Result<u32, CommandError> {
    match parsed {
        Some((h, m, s)) => if h < 24 && m < 60 && s < 60 {
            Ok((h * 3600 + m * 60 + s) as u32)
        } else {
            Err(CommandError::BadTime)
        },
        None => Err(CommandError::BadTime),
    }
}

/// The second of the day of a parsed clock time (hour, minute, second).
pub fn time_of_day(parsed: Option<(u8, u8, u8)>) -> (r: Result<u32, CommandError>)
    ensures
        r == tod_of(parsed),
        r matches Ok(t) ==> t < DAY_SECONDS,
{
    match parsed {
        Some((h, m, s)) => {
            if h < 24 && m < 60 && s < 60 {
                Ok(h as u32 * 3600 + m as u32 * 60 + s as u32)
            } else {
                Err(CommandError::BadTime)
            }
        },
        None => Err(CommandError::BadTime),
    }
}

/// The command that `line` writes.
pub open spec fn command_of(line: Seq<char>) -> Result<Command, CommandError> {
    let w = words(line);
    if w.len() == 0 {
        Ok(Command::Blank)
    } else if w.len() == 1 {
        if w[0] == kw_pause() {
            Ok(Command::Pause)
        } else if w[0] == kw_high() {
            Ok(Command::High)
        } else if w[0] == kw_random() {
            Ok(Command::Random)
        } else if w[0] == kw_show_alarm() {
            Ok(Command::ShowAlarm)
        } else {
            Err(CommandError::Unknown)
        }
    } else if w.len() == 2 {
        if w[0] == kw_pattern() {
            match pattern_id_of(w[1]) {
                Some(n) => Ok(Command::Pattern(n)),
                None => Err(CommandError::BadPattern),
            }
        } else if w[0] == kw_strength() {
            match strength_of(w[1]) {
                Some(v) => Ok(Command::Strength(v)),
                None => Err(CommandError::BadStrength),
            }
        } else if w[0] == kw_alarm() {
            match tod_of(clock_fields(w[1])) {
                Ok(t) => Ok(Command::Alarm(t)),
                Err(e) => Err(e),
            }
        } else {
            Err(CommandError::Unknown)
        }
    } else {
        Err(CommandError::Unknown)
    }
}

fn parse_pattern_id(w: &[char]) -> (r: Option<usize>)
    ensures
        r == pattern_id_of(w@),
{
    let p = digit_run_end(w, 0);
    if w.len() == 0 || p != w.len() {
        return None;
    }
    let v = digits_capped(w, 0, p, PATTERN_COUNT as u64);
    proof {
        assert(w@.subrange(0, p as int) =~= w@);
    }
    if v < PATTERN_COUNT as u64 {
        Some(v as usize)
    } else {
        None
    }
}

fn parse_strength(w: &[char]) -> (r: Option<u32>)
    ensures
        r == strength_of(w@),
{
    let p = digit_run_end(w, 0);
    let whole = digits_capped(w, 0, p, MAX_STRENGTH_WHOLE + 1);
    if whole > MAX_STRENGTH_WHOLE {
        return None;
    }
    if p == w.len() {
        if p > 0 {
            Some((whole * 1000) as u32)
        } else {
            None
        }
    } else if w[p] == '.' {
        let q = digit_run_end(w, p + 1);
        let n = q - (p + 1);
        if q == w.len() && p + n > 0 && n <= 3 {
            let frac = digits_capped(w, p + 1, q, 1000);
            proof {
                lemma_short_digits_below(w@.subrange(p + 1, q as int));
            }
            let weight: u64 = if n == 0 {
                1000
            } else if n == 1 {
                100
            } else if n == 2 {
                10
            } else {
                1
            };
            Some((whole * 1000 + frac * weight) as u32)
        } else {
            None
        }
    } else {
        None
    }
}

/// Up to three digits write a number below 1000, and one below `10^len` in general.
proof fn lemma_short_digits_below(s: Seq<char>)
    requires
        s.len() <= 3,
        forall|k: int| 0 <= k < s.len() ==> crate::text::is_digit(#[trigger] s[k]),
    ensures
        digits_value(s) < 1000,
        s.len() == 0 ==> digits_value(s) == 0,
        s.len() == 1 ==> digits_value(s) < 10,
        s.len() == 2 ==> digits_value(s) < 100,
    decreases s.len(),
{
    if s.len() > 0 {
        lemma_short_digits_below(s.drop_last());
    }
}

/// Reads one command from `line`.
pub fn parse_command(line: &[char]) -> (r: Result<Command, CommandError>)
    ensures
        r == command_of(line@),
        r matches Ok(c) ==> c.wf(),
{
    let w = split_words(line);
    if w.len() == 0 {
        return Ok(Command::Blank);
    }
    let pause: [char; 5] = ['p', 'a', 'u', 's', 'e'];
    let high: [char; 4] = ['h', 'i', 'g', 'h'];
    let random: [char; 6] = ['r', 'a', 'n', 'd', 'o', 'm'];
    let show_alarm: [char; 10] = ['s', 'h', 'o', 'w', '_', 'a', 'l', 'a', 'r', 'm'];
    let pattern: [char; 7] = ['p', 'a', 't', 't', 'e', 'r', 'n'];
    let strength: [char; 8] = ['s', 't', 'r', 'e', 'n', 'g', 't', 'h'];
    let alarm: [char; 5] = ['a', 'l', 'a', 'r', 'm'];
    proof {
        assert(pause@ =~= kw_pause());
        assert(high@ =~= kw_high());
        assert(random@ =~= kw_random());
        assert(show_alarm@ =~= kw_show_alarm());
        assert(pattern@ =~= kw_pattern());
        assert(strength@ =~= kw_strength());
        assert(alarm@ =~= kw_alarm());
    }
    if w.len() == 1 {
        let w0 = w[0].as_slice();
        if same_chars(w0, &pause) {
            Ok(Command::Pause)
        } else if same_chars(w0, &high) {
            Ok(Command::High)
        } else if same_chars(w0, &random) {
            Ok(Command::Random)
        } else if same_chars(w0, &show_alarm) {
            Ok(Command::ShowAlarm)
        } else {
            Err(CommandError::Unknown)
        }
    } else if w.len() == 2 {
        let w0 = w[0].as_slice();
        let w1 = w[1].as_slice();
        if same_chars(w0, &pattern) {
            match parse_pattern_id(w1) {
                Some(n) => Ok(Command::Pattern(n)),
                None => Err(CommandError::BadPattern),
            }
        } else if same_chars(w0, &strength) {
            match parse_strength(w1) {
                Some(v) => Ok(Command::Strength(v)),
                None => Err(CommandError::BadStrength),
            }
        } else if same_chars(w0, &alarm) {
            match time_of_day(parse_clock(w1)) {
                Ok(t) => Ok(Command::Alarm(t)),
                Err(e) => Err(e),
            }
        } else {
            Err(CommandError::Unknown)
        }
    } else {
        Err(CommandError::Unknown)
    }
}

/// The state after command `cmd` at local time `now`.
pub open spec fn after_command(s: ControlState, cmd: Command, now: Moment) -> ControlState {
    match cmd {
        Command::Pause => ControlState { mode: Mode::Paused, manual_pattern: 0, ..s },
        Command::High => ControlState { mode: Mode::Manual, manual_pattern: 1, ..s },
        Command::Random => ControlState { mode: Mode::Random, ..s },
        Command::Pattern(n) => ControlState { mode: Mode::Manual, manual_pattern: n, ..s },
        Command::Strength(v) => ControlState { strength: v, ..s },
        Command::Alarm(t) => ControlState { alarm: Some(deadline_for(t, now)), ..s },
        Command::Blank | Command::ShowAlarm => s,
    }
}

/// Carries out command `cmd` at local time `now`.
pub fn apply_command(state: &mut ControlState, cmd: Command, now: Moment)
    requires
        old(state).wf(),
        cmd.wf(),
        now.has_next_day(),
    ensures
        final(state).wf(),
        *final(state) == after_command(*old(state), cmd, now),
{
    match cmd {
        Command::Pause => {
            state.mode = Mode::Paused;
            state.manual_pattern = 0;
        },
        Command::High => {
            state.mode = Mode::Manual;
            state.manual_pattern = 1;
        },
        Command::Random => {
            state.mode = Mode::Random;
        },
        Command::Pattern(n) => {
            state.mode = Mode::Manual;
            state.manual_pattern = n;
        },
        Command::Strength(v) => {
            state.strength = v;
        },
        Command::Alarm(t) => {
            state.alarm = Some(alarm_deadline(t, now));
        },
        Command::Blank | Command::ShowAlarm => {},
    }
}

/// Reads one command from `line` and carries it out at local time `now`. A line
/// that is not a command changes nothing.
pub fn handle_line(state: &mut ControlState, line: &[char], now: Moment) -> (r: Result<
    Command,
    CommandError,
>)
    requires
        old(state).wf(),
        now.has_next_day(),
    ensures
        final(state).wf(),
        r == command_of(line@),
        r matches Ok(c) ==> *final(state) == after_command(*old(state), c, now),
        r is Err ==> *final(state) == *old(state),
{
    let r = parse_command(line);
    if let Ok(cmd) = r {
        apply_command(state, cmd, now);
    }
    r
}

/// A line whose first word names no command is refused as unknown, and so
/// (see `handle_line`) leaves mode, pattern, strength and alarm as they were.
pub proof fn lemma_unknown_word_is_refused(line: Seq<char>)
    requires
        words(line).len() > 0,
        words(line)[0] != kw_pause(),
        words(line)[0] != kw_high(),
        words(line)[0] != kw_random(),
        words(line)[0] != kw_show_alarm(),
        words(line)[0] != kw_pattern(),
        words(line)[0] != kw_strength(),
        words(line)[0] != kw_alarm(),
    ensures
        command_of(line) == Err::<Command, CommandError>(CommandError::Unknown),
{
}

/// After `pause` and then `pattern n`, the mode is manual on pattern `n`, and
/// the next scheduler cycle makes `n` the effective pattern, whatever it draws.
pub proof fn lemma_pause_then_pattern(s: ControlState, n: usize, now: Moment, drawn: usize)
    requires
        s.wf(),
        n < PATTERN_COUNT,
    ensures
        after_command(after_command(s, Command::Pause, now), Command::Pattern(n), now).mode
            == Mode::Manual,
        after_command(after_command(s, Command::Pause, now), Command::Pattern(n), now).manual_pattern
            == n,
        scheduled_pattern(
            after_command(after_command(s, Command::Pause, now), Command::Pattern(n), now).mode,
            after_command(after_command(s, Command::Pause, now), Command::Pattern(n), now).manual_pattern,
            drawn,
        ) == n,
{
}

} // verus!
