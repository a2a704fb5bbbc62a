use vstd::prelude::*;

verus! {

/// Number of waveforms in the library; valid pattern ids are `0..PATTERN_COUNT`.
pub const PATTERN_COUNT: usize = 11;

/// The id of the waveform that holds a randomly drawn level for runs of ticks.
pub const RANDOM_HOLD_PATTERN: usize = 10;

/// Intensity of a full channel, in percent.
pub const FULL: u32 = 100;

/// One two-channel waveform sample; each channel is an intensity in percent.
#[derive(Clone, Copy, Debug, PartialEq, Eq, Structural)]
pub struct Sample {
    pub ch0: u32,
    pub ch1: u32,
}

impl Sample {
    pub open spec fn in_range(self) -> bool {
        self.ch0 <= FULL && self.ch1 <= FULL
    }
}

pub open spec fn both(level: u32) -> Sample {
    Sample { ch0: level, ch1: level }
}

/// Channel 0 of the alternating-burst waveform (id 3), one entry per tick of its period.
pub open spec fn burst_ch0() -> Seq<u32> {
    seq![1, 1, 0, 0, 1, 1, 0, 0, 1, 1, 0, 0, 1, 1, 0, 0, 1, 0, 1, 0, 1, 0, 1, 0, 1, 0, 1, 0, 1, 0, 1, 0]
}

/// Channel 1 of the alternating-burst waveform (id 3).
pub open spec fn burst_ch1() -> Seq<u32> {
    seq![1, 1, 0, 0, 1, 1, 0, 0, 1, 1, 0, 0, 1, 1, 0, 0, 0, 1, 0, 1, 0, 1, 0, 1, 0, 1, 0, 1, 0, 1, 0, 1]
}

/// Channel 0 of the triplet waveform (id 6).
pub open spec fn triplet_ch0() -> Seq<u32> {
    seq![1, 0, 0, 1, 0, 0, 1, 0, 0, 1, 0, 0, 1, 0, 1, 0]
}

/// Channel 0 of the gallop waveform (id 7): 1 is full, 0 is half.
pub open spec fn gallop_ch0() -> Seq<u32> {
    seq![1, 1, 1, 1, 1, 1, 1, 0, 1, 0, 1, 0, 1, 1, 1, 1, 1, 1, 1, 0, 1, 0, 1, 0]
}

/// Levels of the staircase waveform (id 9), in percent.
pub open spec fn stair_levels() -> Seq<u32> {
    seq![25, 50, 75, 100]
}

pub open spec fn on_off(bit: u32) -> u32 {
    if bit == 1 { FULL } else { 0 }
}

/// What waveform `id` yields at `tick`; `hold` is the level held by the random-hold waveform.
pub open spec fn waveform(id: nat, tick: nat, hold: u32) -> Sample {
    if id == 0 {
        both(0)
    } else if id == 1 {
        both(FULL)
    } else if id == 2 {
        let i = tick % 10;
        Sample { ch0: ((i + 1) * 10) as u32, ch1: ((10 - i) * 10) as u32 }
    } else if id == 3 {
        let i = (tick % 32) as int;
        Sample { ch0: on_off(burst_ch0()[i]), ch1: on_off(burst_ch1()[i]) }
    } else if id == 4 {
        let i = tick % 10;
        Sample { ch0: if i % 2 == 0 { FULL } else { 0 }, ch1: ((i + 1) * 10) as u32 }
    } else if id == 5 {
        Sample { ch0: if tick % 12 < 10 { 20 } else { FULL }, ch1: 50 }
    } else if id == 6 {
        let i = tick % 16;
        Sample { ch0: on_off(triplet_ch0()[i as int]), ch1: if i % 2 == 0 { FULL } else { 0 } }
    } else if id == 7 {
        let i = tick % 24;
        Sample {
            ch0: if gallop_ch0()[i as int] == 1 { FULL } else { 50 },
            ch1: if i % 3 == 0 { FULL } else { 50 },
        }
    } else if id == 8 {
        let i = tick % 6;
        Sample { ch0: if i == 0 { FULL } else { 20 }, ch1: if i == 1 { FULL } else { 20 } }
    } else if id == 9 {
        both(stair_levels()[((tick % 35) / 10) as int])
    } else {
        both(hold)
    }
}

/// A level that the random-hold waveform may draw: a multiple of ten percent below full.
pub open spec fn is_hold_level(level: u32) -> bool {
    level % 10 == 0 && level < FULL
}

/// Waveform 0 at `tick`.
pub fn pattern0() -> (r: Sample)
    ensures
        r == (Sample { ch0: 0, ch1: 0 }),
        forall|tick: nat, hold: u32| r == #[trigger] waveform(0, tick, hold),
{
    Sample { ch0: 0, ch1: 0 }
}

/// Waveform 1 at `tick`.
pub fn pattern1() -> (r: Sample)
    ensures
        r == (Sample { ch0: FULL, ch1: FULL }),
        forall|tick: nat, hold: u32| r == #[trigger] waveform(1, tick, hold),
{
    Sample { ch0: FULL, ch1: FULL }
}

/// Waveform 2 at `tick`.
pub fn pattern2(tick: u64) -> (r: Sample)
    ensures
        r == waveform(2, tick as nat, 0),
        r.in_range(),
{
    let i = (tick % 10) as u32;
    Sample { ch0: (i + 1) * 10, ch1: (10 - i) * 10 }
}

/// Waveform 3 at `tick`.
pub fn pattern3(tick: u64) -> (r: Sample)
    ensures
        r == waveform(3, tick as nat, 0),
        r.in_range(),
{
    let s0: [u32; 32] = [1, 1, 0, 0, 1, 1, 0, 0, 1, 1, 0, 0, 1, 1, 0, 0, 1, 0, 1, 0, 1, 0, 1, 0, 1, 0, 1, 0, 1, 0, 1, 0];
    let s1: [u32; 32] = [1, 1, 0, 0, 1, 1, 0, 0, 1, 1, 0, 0, 1, 1, 0, 0, 0, 1, 0, 1, 0, 1, 0, 1, 0, 1, 0, 1, 0, 1, 0, 1];
    proof {
        assert(s0@ =~= burst_ch0());
        assert(s1@ =~= burst_ch1());
    }
    let i = (tick % 32) as usize;
    Sample { ch0: s0[i] * FULL, ch1: s1[i] * FULL }
}

/// Waveform 4 at `tick`.
pub fn pattern4(tick: u64) -> (r: Sample)
    ensures
        r == waveform(4, tick as nat, 0),
        r.in_range(),
{
    let i = (tick % 10) as u32;
    Sample { ch0: if i % 2 == 0 { FULL } else { 0 }, ch1: (i + 1) * 10 }
}

/// Waveform 5 at `tick`.
pub fn pattern5(tick: u64) -> (r: Sample)
    ensures
        r == waveform(5, tick as nat, 0),
        r.in_range(),
{
    Sample { ch0: if tick % 12 < 10 { 20 } else { FULL }, ch1: 50 }
}

/// Waveform 6 at `tick`.
pub fn pattern6(tick: u64) -> (r: Sample)
    ensures
        r == waveform(6, tick as nat, 0),
        r.in_range(),
{
    let s0: [u32; 16] = [1, 0, 0, 1, 0, 0, 1, 0, 0, 1, 0, 0, 1, 0, 1, 0];
    proof {
        assert(s0@ =~= triplet_ch0());
    }
    let i = (tick % 16) as usize;
    Sample { ch0: s0[i] * FULL, ch1: if i % 2 == 0 { FULL } else { 0 } }
}

/// Waveform 7 at `tick`.
pub fn pattern7(tick: u64) -> (r: Sample)
    ensures
        r == waveform(7, tick as nat, 0),
        r.in_range(),
{
    let s0: [u32; 24] = [1, 1, 1, 1, 1, 1, 1, 0, 1, 0, 1, 0, 1, 1, 1, 1, 1, 1, 1, 0, 1, 0, 1, 0];
    proof {
        assert(s0@ =~= gallop_ch0());
    }
    let i = (tick % 24) as usize;
    Sample { ch0: if s0[i] == 1 { FULL } else { 50 }, ch1: if i % 3 == 0 { FULL } else { 50 } }
}

/// Waveform 8 at `tick`.
pub fn pattern8(tick: u64) -> (r: Sample)
    ensures
        r == waveform(8, tick as nat, 0),
        r.in_range(),
{
    let i = tick % 6;
    Sample { ch0: if i == 0 { FULL } else { 20 }, ch1: if i == 1 { FULL } else { 20 } }
}

/// Waveform 9 at `tick`.
pub fn pattern9(tick: u64) -> (r: Sample)
    ensures
        r == waveform(9, tick as nat, 0),
        r.in_range(),
{
    let levels: [u32; 4] = [25, 50, 75, 100];
    proof {
        assert(levels@ =~= stair_levels());
    }
    let i = ((tick % 35) / 10) as usize;
    Sample { ch0: levels[i], ch1: levels[i] }
}

/// The sample of waveform `id` at `tick`, where `hold` is the level currently held
/// by the random-hold waveform. Every sample lies in `0..=FULL` on both channels
/// when `hold` does.
pub fn pattern(id: usize, tick: u64, hold: u32) -> (r: Sample)
    requires
        id < PATTERN_COUNT,
    ensures
        r == waveform(id as nat, tick as nat, hold),
        hold <= FULL ==> r.in_range(),
{
    proof {
        if hold <= FULL {
            lemma_waveform_in_range(id as nat, tick as nat, hold);
        }
    }
    match id {
        0 => pattern0(),
        1 => pattern1(),
        2 => pattern2(tick),
        3 => pattern3(tick),
        4 => pattern4(tick),
        5 => pattern5(tick),
        6 => pattern6(tick),
        7 => pattern7(tick),
        8 => pattern8(tick),
        9 => pattern9(tick),
        _ => Sample { ch0: hold, ch1: hold },
    }
}

/// Every waveform sample lies in `0..=FULL` on both channels, given a held level that does.
pub proof fn lemma_waveform_in_range(id: nat, tick: nat, hold: u32)
    requires
        id < PATTERN_COUNT,
        hold <= FULL,
    ensures
        waveform(id, tick, hold).in_range(),
{
    let i3 = (tick % 32) as int;
    let i6 = (tick % 16) as int;
    let i9 = ((tick % 35) / 10) as int;
    assert(0 <= i9 < 4);
    assert(stair_levels()[i9] <= FULL);
    assert(on_off(burst_ch0()[i3]) <= FULL);
    assert(on_off(burst_ch1()[i3]) <= FULL);
    assert(on_off(triplet_ch0()[i6]) <= FULL);
}

/// Waveforms 0 to 9 are functions of the tick alone: the held level does not
/// reach them, so the same tick always gives the same sample, in range.
pub proof fn lemma_fixed_waveforms_pure(id: nat, tick: nat, hold_a: u32, hold_b: u32)
    requires
        id < RANDOM_HOLD_PATTERN,
    ensures
        waveform(id, tick, hold_a) == waveform(id, tick, hold_b),
        waveform(id, tick, hold_a).in_range(),
{
    lemma_waveform_in_range(id, tick, 0);
}

/// Waveform 0 is all zero and waveform 1 all full, at every tick.
pub proof fn lemma_stop_and_full(tick: nat, hold: u32)
    ensures
        waveform(0, tick, hold) == (Sample { ch0: 0, ch1: 0 }),
        waveform(1, tick, hold) == (Sample { ch0: FULL, ch1: FULL }),
{
}

/// The ramp (waveform 2) starts at a tenth and full, ends at full and a tenth,
/// and repeats every ten ticks.
pub proof fn lemma_ramp(tick: nat, hold: u32)
    ensures
        waveform(2, 0, hold) == (Sample { ch0: 10, ch1: FULL }),
        waveform(2, 9, hold) == (Sample { ch0: FULL, ch1: 10 }),
        waveform(2, tick + 10, hold) == waveform(2, tick, hold),
{
    assert((tick + 10) % 10 == tick % 10) by (nonlinear_arith);
}

/// The random-hold waveform puts the held level on both channels, at every
/// tick; when that level is drawn is `device::lemma_hold_drawn_once_per_triple`.
pub proof fn lemma_random_hold_both_channels(tick: nat, hold: u32)
    ensures
        waveform(RANDOM_HOLD_PATTERN as nat, tick, hold) == both(hold),
{
}

} // verus!
