use vstd::prelude::*;
use time::OffsetDateTime;

verus! {

/// Seconds in one day.
pub const DAY_SECONDS: u32 = 86400;

/// A moment of local time: a day number and the seconds elapsed in that day.
#[derive(Clone, Copy, Debug, PartialEq, Eq, Structural)]
pub struct Moment {
    pub day: i64,
    pub secs: u32,
}

impl Moment {
    /// The second of the day is in range.
    pub open spec fn wf(self) -> bool {
        self.secs < DAY_SECONDS
    }

    /// The moment is well formed and its day has a successor.
    pub open spec fn has_next_day(self) -> bool {
        self.wf() && self.day < i64::MAX
    }

    /// The moment as a count of seconds.
    pub open spec fn instant(self) -> int {
        self.day * DAY_SECONDS + self.secs
    }
}

/// Bound on the Julian day numbers of time's dates, whose years lie within
/// plus or minus one hundred thousand.
pub const JULIAN_DAY_BOUND: i64 = 1_000_000_000;

/// Relies on time's `OffsetDateTime::now_utc()`: the current UTC date as its Julian
/// day number (`Date::julian_day`; a `Date` keeps its year within
/// plus or minus 100000) and the hour, minute and second of the day, which
/// `OffsetDateTime::hour`, `minute` and `second` document as in range.
#[verifier::external_body]
fn utc_now() -> (r: (i64, u8, u8, u8))
    ensures
        -JULIAN_DAY_BOUND < r.0 < JULIAN_DAY_BOUND,
        r.1 < 24,
        r.2 < 60,
        r.3 < 60,
{
    let t = OffsetDateTime::now_utc();
    (t.date().julian_day(), t.hour(), t.minute(), t.second())
}

/// By how many days a second of the day moves when `offset` seconds are added.
pub open spec fn day_carry(secs: u32, offset: i32) -> int {
    if secs + offset < 0 {
        -1
    } else if secs + offset >= DAY_SECONDS {
        1
    } else {
        0
    }
}

/// The moment `offset` seconds after `m` (before it, for a negative offset).
/// There is none when the day it falls on has no successor in `i64`.
pub fn shift(m: Moment, offset: i32) -> (r: Option<Moment>)
    requires
        m.wf(),
        -(DAY_SECONDS as int) < offset < DAY_SECONDS,
    ensures
        r is Some <==> i64::MIN <= m.day + day_carry(m.secs, offset) < i64::MAX,
        r matches Some(n) ==> n.has_next_day() && n.instant() == m.instant() + offset,
{
    let total: i64 = m.secs as i64 + offset as i64;
    if total < 0 {
        match m.day.checked_sub(1) {
            Some(day) => Some(Moment { day, secs: (total + DAY_SECONDS as i64) as u32 }),
            None => None,
        }
    } else if total >= DAY_SECONDS as i64 {
        if m.day < i64::MAX - 1 {
            Some(Moment { day: m.day + 1, secs: (total - DAY_SECONDS as i64) as u32 })
        } else {
            None
        }
    } else if m.day < i64::MAX {
        Some(Moment { day: m.day, secs: total as u32 })
    } else {
        None
    }
}

/// Local time now: the UTC clock moved by `offset` seconds.
pub fn local_now(offset: i32) -> (r: Moment)
    requires
        -(DAY_SECONDS as int) < offset < DAY_SECONDS,
    ensures
        r.has_next_day(),
        -JULIAN_DAY_BOUND - 1 <= r.day <= JULIAN_DAY_BOUND,
{
    let (day, h, m, s) = utc_now();
    let secs: u32 = h as u32 * 3600 + m as u32 * 60 + s as u32;
    shift(Moment { day, secs }, offset).unwrap()
}

/// When an alarm set for second `tod` of the day goes off, seen from `now`: today
/// if that is still ahead, else the same second of the next day.
pub open spec fn deadline_for(tod: u32, now: Moment) -> Moment {
    let today = Moment { day: now.day, secs: tod };
    if today.instant() <= now.instant() {
        Moment { day: (now.day + 1) as i64, secs: tod }
    } else {
        today
    }
}

/// The deadline of an alarm set at `now` for second `tod` of the day.
pub fn alarm_deadline(tod: u32, now: Moment) -> (r: Moment)
    requires
        tod < DAY_SECONDS,
        now.has_next_day(),
    ensures
        r == deadline_for(tod, now),
        r.wf(),
        r.instant() > now.instant(),
{
    if tod <= now.secs {
        Moment { day: now.day + 1, secs: tod }
    } else {
        Moment { day: now.day, secs: tod }
    }
}

/// Whether `a` is not later than `b`.
pub fn not_after(a: Moment, b: Moment) -> (r: bool)
    requires
        a.wf(),
        b.wf(),
    ensures
        r == (a.instant() <= b.instant()),
{
    a.day < b.day || (a.day == b.day && a.secs <= b.secs)
}

} // verus!
