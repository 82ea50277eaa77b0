//! The integer side of tempo estimation: which lags the autocorrelation
//! search visits, and the tempo that a lag stands for.

use crate::fallback::{fallback_bpm, Fallback};
use vstd::prelude::*;

verus! {

/// The slowest tempo searched and reported.
pub const MIN_BPM: u32 = 60;

/// The fastest tempo searched and reported.
pub const MAX_BPM: u32 = 180;

/// The envelope must be longer than this for a tempo to be estimated.
pub const MIN_ENVELOPE_LEN: usize = 8;

/// `a / b` rounded to the nearest integer, halves upwards (`a >= 0`, `b > 0`).
pub open spec fn round_div(a: int, b: int) -> int {
    (2 * a + b) / (2 * b)
}

/// The shortest lag searched, in windows: the period of the fastest tempo,
/// `round((60 / 180) / (window / sample_rate))`, and at least 1.
pub open spec fn lag_min_spec(sample_rate: int, window: int) -> int {
    let l = round_div(sample_rate, 3 * window);
    if l < 1 {
        1
    } else {
        l
    }
}

/// The longest lag searched, in windows: the period of the slowest tempo,
/// `round((60 / 60) / (window / sample_rate))`.
pub open spec fn lag_max_spec(sample_rate: int, window: int) -> int {
    round_div(sample_rate, window)
}

/// An inclusive range of lags.
#[derive(PartialEq, Eq, Structural, Clone, Copy, Debug)]
pub struct LagRange {
    pub min: u32,
    pub max: u32,
}

proof fn round_div_at_most(a: int, b: int)
    requires
        a >= 0,
        b >= 1,
    ensures
        0 <= round_div(a, b) <= a,
{
    assert(2 * a + b < (2 * b) * (a + 1)) by (nonlinear_arith)
        requires
            a >= 0,
            b >= 1,
    ;
    vstd::arithmetic::div_mod::lemma_div_pos_is_pos(2 * a + b, 2 * b);
    vstd::arithmetic::div_mod::lemma_div_by_multiple_is_strongly_ordered(
        2 * a + b,
        (2 * b) * (a + 1),
        a + 1,
        2 * b,
    );
    assert((2 * b) * (a + 1) / (2 * b) == a + 1) by (nonlinear_arith)
        requires
            b >= 1,
    ;
}

/// The lags, in windows, whose periods lie between the fastest and the
/// slowest tempo searched.
pub fn lag_bounds(sample_rate: u32, window: usize) -> (r: LagRange)
    requires
        window > 0,
    ensures
        r.min == lag_min_spec(sample_rate as int, window as int),
        r.max == lag_max_spec(sample_rate as int, window as int),
{
    let sr = sample_rate as u128;
    let w = window as u128;
    proof {
        round_div_at_most(sr as int, 3 * w as int);
        round_div_at_most(sr as int, w as int);
    }
    let shortest = (2 * sr + 3 * w) / (6 * w);
    let longest = (2 * sr + w) / (2 * w);
    let min = if shortest < 1 {
        1
    } else {
        shortest as u32
    };
    LagRange { min, max: longest as u32 }
}

/// The lags to search for an envelope of the given length, or `None` where
/// no tempo is estimated: the envelope is too short or the range is empty.
pub fn plan_tempo(envelope_len: usize, sample_rate: u32, window: usize) -> (r: Option<LagRange>)
    requires
        window > 0,
    ensures
        r is Some <==> (envelope_len > MIN_ENVELOPE_LEN && lag_min_spec(
            sample_rate as int,
            window as int,
        ) <= lag_max_spec(sample_rate as int, window as int)),
        r matches Some(range) ==> range.min == lag_min_spec(sample_rate as int, window as int)
            && range.max == lag_max_spec(sample_rate as int, window as int),
{
    if envelope_len <= MIN_ENVELOPE_LEN {
        return None;
    }
    let range = lag_bounds(sample_rate, window);
    if range.min <= range.max {
        Some(range)
    } else {
        None
    }
}

/// A tempo in beats per minute, as the fraction `num / den`.
#[derive(PartialEq, Eq, Structural, Clone, Copy, Debug)]
pub struct Bpm {
    pub num: u128,
    pub den: u128,
}

/// Whether a tempo lies in `[60, 180]`.
pub open spec fn bpm_in_range(b: Bpm) -> bool {
    &&& b.den > 0
    &&& MIN_BPM * b.den <= b.num <= MAX_BPM * b.den
}

/// The tempo of a period of `lag` windows, `60 / (lag * window / sample_rate)`,
/// clamped to `[60, 180]`.
pub open spec fn lag_bpm_spec(sample_rate: int, window: int, lag: int) -> Bpm {
    let num = 60 * sample_rate;
    let den = lag * window;
    if num < MIN_BPM * den {
        Bpm { num: MIN_BPM as u128, den: 1 }
    } else if num > MAX_BPM * den {
        Bpm { num: MAX_BPM as u128, den: 1 }
    } else {
        Bpm { num: num as u128, den: den as u128 }
    }
}

/// The tempo of a period of `lag` windows, clamped to `[60, 180]`.
pub fn bpm_for_lag(sample_rate: u32, window: usize, lag: u32) -> (r: Bpm)
    requires
        window > 0,
        lag > 0,
    ensures
        r == lag_bpm_spec(sample_rate as int, window as int, lag as int),
        bpm_in_range(r),
{
    proof {
        assert(lag as int * window as int >= 1) by (nonlinear_arith)
            requires
                lag >= 1,
                window >= 1,
        ;
        assert(lag as int * window as int <= 0x1_0000_0000 * 0x1_0000_0000_0000_0000)
            by (nonlinear_arith)
            requires
                lag < 0x1_0000_0000,
                window < 0x1_0000_0000_0000_0000,
        ;
    }
    let num = 60 * sample_rate as u128;
    let den = lag as u128 * window as u128;
    if num < 60 * den {
        Bpm { num: 60, den: 1 }
    } else if num > 180 * den {
        Bpm { num: 180, den: 1 }
    } else {
        Bpm { num, den }
    }
}

/// The tempo reported: that of the best lag where the search found one with
/// a positive score, else the placeholder tempo.
pub fn resolve_bpm(
    best_lag: Option<u32>,
    sample_rate: u32,
    window: usize,
    fallback: &Fallback,
) -> (r: Bpm)
    requires
        window > 0,
        best_lag matches Some(l) ==> l > 0,
    ensures
        best_lag is None ==> r == (Bpm { num: fallback.bpm as u128, den: 1 }),
        best_lag matches Some(l) ==> r == lag_bpm_spec(sample_rate as int, window as int, l as int),
        MIN_BPM <= fallback.bpm <= MAX_BPM ==> bpm_in_range(r),
{
    match best_lag {
        Some(l) => bpm_for_lag(sample_rate, window, l),
        None => Bpm { num: fallback.bpm as u128, den: 1 },
    }
}

/// Whatever its source, the tempo reported lies in `[60, 180]`: the tempo of
/// any lag is clamped, and the placeholder tempo of any seed is in range.
pub proof fn tempo_always_in_range(sample_rate: u32, window: usize, lag: u32, seed: u32)
    requires
        window > 0,
        lag > 0,
    ensures
        bpm_in_range(lag_bpm_spec(sample_rate as int, window as int, lag as int)),
        bpm_in_range(Bpm { num: fallback_bpm(seed) as u128, den: 1 }),
{
    assert(lag as int * window as int >= 1) by (nonlinear_arith)
        requires
            lag >= 1,
            window >= 1,
    ;
}

} // verus!
