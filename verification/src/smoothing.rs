//! One-pole low-pass filter over the head orientation.
//!
//! Each update moves every estimate toward the new raw value by the fraction
//! `1 - SMOOTHING_NUM / SMOOTHING_DEN` of their distance, rounding toward the
//! raw value, so that an estimate never overshoots and a steady input is
//! reached exactly.

use vstd::prelude::*;

verus! {

/// Numerator of the smoothing coefficient.
pub const SMOOTHING_NUM: u64 = 65;

/// Denominator of the smoothing coefficient.
pub const SMOOTHING_DEN: u64 = 100;

/// Number of identical samples after which every estimate equals the sample.
pub const SETTLING_TICKS: u64 = 102;

/// The estimate that follows `estimate` once `raw` has been observed: the
/// weighted mean `(NUM * estimate + (DEN - NUM) * raw) / DEN`, rounded to a
/// whole unit toward `raw`.
pub open spec fn blend(estimate: int, raw: int) -> int {
    if estimate >= raw {
        raw + (SMOOTHING_NUM * (estimate - raw)) / (SMOOTHING_DEN as int)
    } else {
        raw - (SMOOTHING_NUM * (raw - estimate)) / (SMOOTHING_DEN as int)
    }
}

/// The estimate after `ticks` updates that all observed `raw`.
pub open spec fn settle(estimate: int, raw: int, ticks: nat) -> int
    decreases ticks,
{
    if ticks == 0 {
        estimate
    } else {
        settle(blend(estimate, raw), raw, (ticks - 1) as nat)
    }
}

/// Distance between two values.
pub open spec fn gap(a: int, b: int) -> int {
    if a >= b {
        a - b
    } else {
        b - a
    }
}

/// `base` raised to `exp`.
pub open spec fn power(base: int, exp: nat) -> int
    decreases exp,
{
    if exp == 0 {
        1
    } else {
        base * power(base, (exp - 1) as nat)
    }
}

/// Whether `value` lies between `a` and `b`, whichever of the two is the
/// larger.
pub open spec fn is_between(value: int, a: int, b: int) -> bool {
    (a <= value <= b) || (b <= value <= a)
}

/// The estimate after a run of raw values, taken in one by one.
pub open spec fn filtered(estimate: int, raws: Seq<int>) -> int
    decreases raws.len(),
{
    if raws.len() == 0 {
        estimate
    } else {
        blend(filtered(estimate, raws.drop_last()), raws.last())
    }
}

/// The new estimate lies between the old estimate and the raw value.
pub proof fn lemma_blend_between(estimate: int, raw: int)
    ensures
        estimate <= raw ==> estimate <= blend(estimate, raw) <= raw,
        estimate >= raw ==> raw <= blend(estimate, raw) <= estimate,
        is_between(blend(estimate, raw), estimate, raw),
{
}

/// The estimate never leaves the range that it and the raw values have
/// covered: there is no overshoot.
pub proof fn lemma_filtered_within_range(estimate: int, raws: Seq<int>, low: int, high: int)
    requires
        low <= estimate <= high,
        forall|i: int| 0 <= i < raws.len() ==> low <= #[trigger] raws[i] <= high,
    ensures
        low <= filtered(estimate, raws) <= high,
    decreases raws.len(),
{
    if raws.len() > 0 {
        let before = raws.drop_last();
        lemma_filtered_within_range(estimate, before, low, high);
        lemma_blend_between(filtered(estimate, before), raws.last());
    }
}

/// The new estimate is the weighted mean of the old estimate and the raw
/// value, off by less than one unit and never on the far side of `raw`.
pub proof fn lemma_blend_is_weighted_mean(estimate: int, raw: int)
    ensures
        ({
            let exact = SMOOTHING_NUM * estimate + (SMOOTHING_DEN - SMOOTHING_NUM) * raw;
            let got = SMOOTHING_DEN * blend(estimate, raw);
            &&& estimate >= raw ==> exact - SMOOTHING_DEN < got <= exact
            &&& estimate <= raw ==> exact <= got < exact + SMOOTHING_DEN
        }),
{
}

/// One update shrinks the distance to the raw value to at most
/// `SMOOTHING_NUM / SMOOTHING_DEN` of what it was; a raw value that has been
/// reached is kept.
pub proof fn lemma_blend_contracts(estimate: int, raw: int)
    ensures
        SMOOTHING_DEN * gap(blend(estimate, raw), raw) <= SMOOTHING_NUM * gap(estimate, raw),
        estimate != raw ==> gap(blend(estimate, raw), raw) < gap(estimate, raw),
        blend(raw, raw) == raw,
{
}

/// Under a steady input the distance to it decays geometrically.
pub proof fn lemma_settle_decays(estimate: int, raw: int, ticks: nat)
    ensures
        power(SMOOTHING_DEN as int, ticks) * gap(settle(estimate, raw, ticks), raw) <= power(
            SMOOTHING_NUM as int,
            ticks,
        ) * gap(estimate, raw),
    decreases ticks,
{
    if ticks > 0 {
        let next = blend(estimate, raw);
        let rest = (ticks - 1) as nat;
        lemma_blend_contracts(estimate, raw);
        lemma_settle_decays(next, raw, rest);
        let d = power(SMOOTHING_DEN as int, rest);
        let n = power(SMOOTHING_NUM as int, rest);
        let g_end = gap(settle(next, raw, rest), raw);
        let g_next = gap(next, raw);
        let g0 = gap(estimate, raw);
        lemma_power_positive(SMOOTHING_NUM as int, rest);
        assert(100 * d * g_end <= 65 * n * g0) by (nonlinear_arith)
            requires
                d * g_end <= n * g_next,
                100 * g_next <= 65 * g0,
                n > 0,
        ;
        assert(power(100, ticks) * g_end == 100 * d * g_end) by (nonlinear_arith)
            requires
                power(100, ticks) == 100 * d,
        ;
        assert(power(65, ticks) * g0 == 65 * n * g0) by (nonlinear_arith)
            requires
                power(65, ticks) == 65 * n,
        ;
    }
}

/// A positive base has positive powers.
proof fn lemma_power_positive(base: int, exp: nat)
    requires
        base > 0,
    ensures
        power(base, exp) > 0,
    decreases exp,
{
    if exp > 0 {
        lemma_power_positive(base, (exp - 1) as nat);
        assert(base * power(base, (exp - 1) as nat) > 0) by (nonlinear_arith)
            requires
                base > 0,
                power(base, (exp - 1) as nat) > 0,
        ;
    }
}

/// What remains of a distance after one update.
pub open spec fn retained(distance: int) -> int {
    (SMOOTHING_NUM * distance) / (SMOOTHING_DEN as int)
}

/// What remains of a distance after `ticks` updates toward a steady input.
pub open spec fn decayed(distance: int, ticks: nat) -> int
    decreases ticks,
{
    if ticks == 0 {
        distance
    } else {
        decayed(retained(distance), (ticks - 1) as nat)
    }
}

/// Under a steady input the distance to it follows `decayed` exactly.
pub proof fn lemma_settle_gap(estimate: int, raw: int, ticks: nat)
    ensures
        gap(settle(estimate, raw, ticks), raw) == decayed(gap(estimate, raw), ticks),
    decreases ticks,
{
    if ticks > 0 {
        lemma_settle_gap(blend(estimate, raw), raw, (ticks - 1) as nat);
    }
}

/// A smaller distance decays to a smaller distance, and none turns negative.
proof fn lemma_decayed_monotone(small: int, large: int, ticks: nat)
    requires
        0 <= small <= large,
    ensures
        0 <= decayed(small, ticks) <= decayed(large, ticks),
    decreases ticks,
{
    if ticks > 0 {
        lemma_decayed_monotone(retained(small), retained(large), (ticks - 1) as nat);
    }
}

/// Decaying in two stretches is decaying once over both.
proof fn lemma_decayed_split(distance: int, first: nat, second: nat)
    ensures
        decayed(distance, first + second) == decayed(decayed(distance, first), second),
    decreases first,
{
    if first > 0 {
        lemma_decayed_split(retained(distance), (first - 1) as nat, second);
    }
}

/// What remains of a distance after six updates.
spec fn six_times_retained(distance: int) -> int {
    let r1 = (65 * distance) / 100;
    let r2 = (65 * r1) / 100;
    let r3 = (65 * r2) / 100;
    let r4 = (65 * r3) / 100;
    let r5 = (65 * r4) / 100;
    (65 * r5) / 100
}

/// The coefficient written out.
proof fn lemma_retained_value(distance: int)
    ensures
        retained(distance) == (65 * distance) / 100,
{
}

/// Six updates at once.
proof fn lemma_decayed_six(distance: int, ticks: nat)
    requires
        ticks >= 6,
    ensures
        decayed(distance, ticks) == decayed(six_times_retained(distance), (ticks - 6) as nat),
{
    let r1 = retained(distance);
    let r2 = retained(r1);
    let r3 = retained(r2);
    let r4 = retained(r3);
    let r5 = retained(r4);
    lemma_retained_value(distance);
    lemma_retained_value(r1);
    lemma_retained_value(r2);
    lemma_retained_value(r3);
    lemma_retained_value(r4);
    lemma_retained_value(r5);
    assert(decayed(distance, ticks) == decayed(retained(r5), (ticks - 6) as nat)) by {
        reveal_with_fuel(decayed, 7);
    }
}

/// Six updates keep less than 75 419 millionths of a distance.
proof fn lemma_six_bound(distance: int)
    requires
        distance >= 0,
    ensures
        0 <= six_times_retained(distance),
        1_000_000 * six_times_retained(distance) <= 75_419 * distance,
{
}

/// Twenty-four updates keep less than 32 353 635 parts in a million million.
proof fn lemma_decayed_24(distance: int, ticks: nat)
    requires
        distance >= 0,
        ticks >= 24,
    ensures
        decayed(distance, ticks) == decayed(decayed(distance, 24), (ticks - 24) as nat),
        0 <= decayed(distance, 24),
        1_000_000_000_000 * decayed(distance, 24) <= 32_353_635 * distance,
{
    let d1 = six_times_retained(distance);
    let d2 = six_times_retained(d1);
    let d3 = six_times_retained(d2);
    let d4 = six_times_retained(d3);
    lemma_six_bound(distance);
    lemma_six_bound(d1);
    lemma_six_bound(d2);
    lemma_six_bound(d3);
    lemma_decayed_six(distance, 24);
    lemma_decayed_six(d1, 18);
    lemma_decayed_six(d2, 12);
    lemma_decayed_six(d3, 6);
    lemma_decayed_split(distance, 24, (ticks - 24) as nat);
}

/// The widest distance two 64-bit values can have is gone after
/// `SETTLING_TICKS` updates.
proof fn lemma_widest_gap_settles()
    ensures
        decayed(0xffff_ffff_ffff_ffff, SETTLING_TICKS as nat) == 0,
{
    let d0: int = 0xffff_ffff_ffff_ffff;
    let d1 = decayed(d0, 24);
    let d2 = decayed(d1, 24);
    let d3 = decayed(d2, 24);
    let d4 = decayed(d3, 24);
    lemma_decayed_24(d0, 102);
    lemma_decayed_24(d1, 78);
    lemma_decayed_24(d2, 54);
    lemma_decayed_24(d3, 30);
    lemma_decayed_monotone(d4, 20, 6);
    lemma_decayed_six(20, 6);
}

/// Once the input has been steady for `SETTLING_TICKS` updates, every
/// estimate equals it, whatever the estimate was before.
pub proof fn lemma_settles(estimate: i64, raw: i64, ticks: nat)
    requires
        ticks >= SETTLING_TICKS,
    ensures
        settle(estimate as int, raw as int, ticks) == raw,
{
    let extra = (ticks - SETTLING_TICKS) as nat;
    let start = gap(estimate as int, raw as int);
    lemma_settle_gap(estimate as int, raw as int, ticks);
    lemma_decayed_monotone(start, 0xffff_ffff_ffff_ffff, SETTLING_TICKS as nat);
    lemma_widest_gap_settles();
    lemma_decayed_split(start, SETTLING_TICKS as nat, extra);
    lemma_decayed_monotone(0, 0, extra);
    lemma_zero_stays(extra);
}

/// Nothing remains of no distance.
proof fn lemma_zero_stays(ticks: nat)
    ensures
        decayed(0, ticks) == 0,
    decreases ticks,
{
    if ticks > 0 {
        lemma_zero_stays((ticks - 1) as nat);
    }
}

/// The part of a distance that one update keeps.
fn retained_of(distance: u64) -> (kept: u64)
    ensures
        kept == retained(distance as int),
        kept <= distance,
{
    let wide: u128 = distance as u128;
    let scaled: u128 = SMOOTHING_NUM as u128 * wide;
    let kept: u128 = scaled / (SMOOTHING_DEN as u128);
    kept as u64
}

/// Advances one estimate by one sample.
pub fn blend_step(estimate: i64, raw: i64) -> (next: i64)
    ensures
        next == blend(estimate as int, raw as int),
{
    if estimate >= raw {
        let kept: u64 = retained_of((estimate as i128 - raw as i128) as u64);
        (raw as i128 + kept as i128) as i64
    } else {
        let kept: u64 = retained_of((raw as i128 - estimate as i128) as u64);
        (raw as i128 - kept as i128) as i64
    }
}

/// Running estimate of the head orientation, in millionths of a degree.
#[derive(Clone, Copy, Debug, PartialEq, Eq)]
pub struct SmoothedState {
    pub yaw: i64,
    pub pitch: i64,
    pub roll: i64,
}

impl SmoothedState {
    /// The estimate before any sample: level and straight ahead.
    pub fn new() -> (state: Self)
        ensures
            state.yaw == 0,
            state.pitch == 0,
            state.roll == 0,
    {
        SmoothedState { yaw: 0, pitch: 0, roll: 0 }
    }

    /// Folds one raw orientation into the estimate. Each new estimate lies
    /// between the old one and the raw value.
    pub fn update(&mut self, raw_yaw: i64, raw_pitch: i64, raw_roll: i64)
        ensures
            final(self).yaw == blend(old(self).yaw as int, raw_yaw as int),
            final(self).pitch == blend(old(self).pitch as int, raw_pitch as int),
            final(self).roll == blend(old(self).roll as int, raw_roll as int),
            is_between(final(self).yaw as int, old(self).yaw as int, raw_yaw as int),
            is_between(final(self).pitch as int, old(self).pitch as int, raw_pitch as int),
            is_between(final(self).roll as int, old(self).roll as int, raw_roll as int),
    {
        proof {
            lemma_blend_between(self.yaw as int, raw_yaw as int);
            lemma_blend_between(self.pitch as int, raw_pitch as int);
            lemma_blend_between(self.roll as int, raw_roll as int);
        }
        self.yaw = blend_step(self.yaw, raw_yaw);
        self.pitch = blend_step(self.pitch, raw_pitch);
        self.roll = blend_step(self.roll, raw_roll);
    }
}

} // verus!
