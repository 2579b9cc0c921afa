//! From the smoothed orientation and the operator's settings to the
//! parameters of the two virtual speakers.

use crate::mode::SpeakerMode;
use crate::units::{
    MAX_GAIN, MAX_RADIUS, MAX_REVERB, MIN_GAIN, MIN_RADIUS, MIN_REVERB, UNIT,
};
use vstd::prelude::*;

verus! {

/// `root` is the square root of `square`, rounded down.
pub open spec fn is_floor_sqrt(root: int, square: int) -> bool {
    &&& 0 <= root
    &&& root * root <= square
    &&& square < (root + 1) * (root + 1)
}

/// The square root of a natural number, rounded down.
pub open spec fn floor_sqrt(square: int) -> int {
    choose|root: int| is_floor_sqrt(root, square)
}

/// Azimuth of a speaker whose base azimuth is `base_degrees` whole degrees:
/// the base scaled by the stereo width, turned against the head's yaw.
pub open spec fn azimuth_of(base_degrees: int, width: int, yaw: int) -> int {
    base_degrees * width - yaw
}

/// Gain at a listening distance: the reciprocal of the distance in metres,
/// rounded down to a whole unit and held within `MIN_GAIN ..= MAX_GAIN`.
/// At distance zero the reciprocal is unbounded and the gain is `MAX_GAIN`.
pub open spec fn gain_of(radius: int) -> int {
    if radius <= 0 {
        MAX_GAIN as int
    } else {
        let reciprocal = (UNIT * UNIT) / radius;
        if reciprocal < MIN_GAIN {
            MIN_GAIN as int
        } else if reciprocal > MAX_GAIN {
            MAX_GAIN as int
        } else {
            reciprocal
        }
    }
}

/// How far a distance reaches into `MIN_RADIUS ..= MAX_RADIUS`.
pub open spec fn reverb_reach(radius: int) -> int {
    if radius <= MIN_RADIUS {
        0
    } else if radius >= MAX_RADIUS {
        MAX_RADIUS - MIN_RADIUS
    } else {
        radius - MIN_RADIUS
    }
}

/// The square of the wet gain above `MIN_REVERB`, before rounding: the
/// reach as a fraction of the whole range, times the square of the span
/// `MAX_REVERB - MIN_REVERB`.
pub open spec fn reverb_rise_squared(radius: int) -> int {
    ((MAX_REVERB - MIN_REVERB) * (MAX_REVERB - MIN_REVERB) * reverb_reach(radius)) / (MAX_RADIUS
        - MIN_RADIUS)
}

/// Reverb wet gain at a listening distance. Off, it is zero. On, it rises
/// from `MIN_REVERB` to `MAX_REVERB` with the square root of the reach,
/// rounded down to a whole unit.
pub open spec fn reverb_of(radius: int, enabled: bool) -> int {
    if enabled {
        MIN_REVERB + floor_sqrt(reverb_rise_squared(radius))
    } else {
        0
    }
}

/// No number has two rounded-down square roots.
pub proof fn lemma_floor_sqrt_unique(a: int, b: int, square: int)
    requires
        is_floor_sqrt(a, square),
        is_floor_sqrt(b, square),
    ensures
        a == b,
{
    if a < b {
        assert((a + 1) * (a + 1) <= b * b) by (nonlinear_arith)
            requires
                0 <= a,
                a + 1 <= b,
        ;
    } else if b < a {
        assert((b + 1) * (b + 1) <= a * a) by (nonlinear_arith)
            requires
                0 <= b,
                b + 1 <= a,
        ;
    }
}

/// Every natural number has a rounded-down square root.
pub proof fn lemma_floor_sqrt_exists(square: int)
    requires
        square >= 0,
    ensures
        is_floor_sqrt(floor_sqrt(square), square),
    decreases square,
{
    if square == 0 {
        assert(is_floor_sqrt(0, 0));
    } else {
        lemma_floor_sqrt_exists(square - 1);
        let below = floor_sqrt(square - 1);
        if (below + 1) * (below + 1) <= square {
            assert(square < (below + 2) * (below + 2)) by (nonlinear_arith)
                requires
                    (below + 1) * (below + 1) == square,
                    below >= 0,
            ;
            assert(is_floor_sqrt(below + 1, square));
        } else {
            assert(is_floor_sqrt(below, square));
        }
    }
}

/// A root that fits the definition is the rounded-down square root.
pub proof fn lemma_floor_sqrt_is(root: int, square: int)
    requires
        is_floor_sqrt(root, square),
    ensures
        floor_sqrt(square) == root,
{
    lemma_floor_sqrt_unique(root, floor_sqrt(square), square);
}

/// The rounded-down square root grows with its argument.
pub proof fn lemma_floor_sqrt_monotone(small: int, large: int)
    requires
        0 <= small <= large,
    ensures
        floor_sqrt(small) <= floor_sqrt(large),
{
    lemma_floor_sqrt_exists(small);
    lemma_floor_sqrt_exists(large);
    let a = floor_sqrt(small);
    let b = floor_sqrt(large);
    if b < a {
        assert((b + 1) * (b + 1) <= a * a) by (nonlinear_arith)
            requires
                0 <= b,
                b + 1 <= a,
        ;
    }
}

/// Between its limits the gain is the reciprocal of the distance, rounded
/// down: `gain * radius <= UNIT * UNIT < (gain + 1) * radius`.
pub proof fn lemma_gain_is_reciprocal(radius: int)
    requires
        radius > 0,
        MIN_GAIN <= (UNIT * UNIT) / radius <= MAX_GAIN,
    ensures
        gain_of(radius) * radius <= UNIT * UNIT,
        UNIT * UNIT < (gain_of(radius) + 1) * radius,
{
    let whole: int = UNIT * UNIT;
    let gain = whole / radius;
    assert(gain * radius <= whole && whole < (gain + 1) * radius) by (nonlinear_arith)
        requires
            radius > 0,
            gain == whole / radius,
    ;
}

/// The gain stays within its limits, and is held at a limit wherever the
/// reciprocal of the distance lies beyond it.
pub proof fn lemma_gain_limits(radius: int)
    ensures
        MIN_GAIN <= gain_of(radius) <= MAX_GAIN,
        radius * MAX_GAIN <= UNIT * UNIT ==> gain_of(radius) == MAX_GAIN,
        radius * MIN_GAIN >= UNIT * UNIT ==> gain_of(radius) == MIN_GAIN,
{
    if radius > 0 {
        let whole: int = UNIT * UNIT;
        assert(whole == 1_000_000_000_000) by (nonlinear_arith)
            requires
                whole == UNIT * UNIT,
                UNIT == 1_000_000,
        ;
        let reciprocal = whole / radius;
        assert(reciprocal * radius <= whole && whole < (reciprocal + 1) * radius)
            by (nonlinear_arith)
            requires
                radius > 0,
                reciprocal == whole / radius,
        ;
        if radius * MAX_GAIN <= whole {
            assert(reciprocal >= 2_000_000) by (nonlinear_arith)
                requires
                    radius > 0,
                    radius * 2_000_000 <= whole,
                    whole < (reciprocal + 1) * radius,
            ;
        }
        if radius * MIN_GAIN >= whole {
            assert(reciprocal <= 100_000) by (nonlinear_arith)
                requires
                    radius > 0,
                    radius * 100_000 >= whole,
                    reciprocal * radius <= whole,
            ;
        }
    }
}

/// With reverb off the wet gain is zero at every distance.
pub proof fn lemma_reverb_off(radius: int)
    ensures
        reverb_of(radius, false) == 0,
{
}

/// With reverb on the wet gain is `MIN_REVERB` up to the shortest distance
/// and `MAX_REVERB` from the longest distance on.
pub proof fn lemma_reverb_ends(radius: int)
    ensures
        radius <= MIN_RADIUS ==> reverb_of(radius, true) == MIN_REVERB,
        radius >= MAX_RADIUS ==> reverb_of(radius, true) == MAX_REVERB,
{
    lemma_rise_squared_value(radius);
    if radius <= MIN_RADIUS {
        lemma_floor_sqrt_is(0, 0);
    }
    if radius >= MAX_RADIUS {
        lemma_floor_sqrt_is(550_000, 302_500_000_000);
    }
}

/// The square under the root, with the constants written out.
pub proof fn lemma_rise_squared_value(radius: int)
    ensures
        reverb_rise_squared(radius) == (302_500_000_000 * reverb_reach(radius)) / 9_900_000,
        0 <= reverb_rise_squared(radius) <= 302_500_000_000,
{
    let reach = reverb_reach(radius);
    assert((MAX_REVERB - MIN_REVERB) * (MAX_REVERB - MIN_REVERB) * reach == 302_500_000_000
        * reach) by (nonlinear_arith)
        requires
            MAX_REVERB - MIN_REVERB == 550_000,
    ;
}

/// With reverb on the wet gain follows the square root of the reach: its
/// rise above `MIN_REVERB`, squared and set against the whole range, brackets
/// the square of the span times the reach.
pub proof fn lemma_reverb_follows_root(radius: int)
    ensures
        ({
            let rise = reverb_of(radius, true) - MIN_REVERB;
            let span = MAX_REVERB - MIN_REVERB;
            let range = MAX_RADIUS - MIN_RADIUS;
            &&& 0 <= rise <= span
            &&& rise * rise * range <= span * span * reverb_reach(radius)
            &&& span * span * reverb_reach(radius) < (rise + 1) * (rise + 1) * range
        }),
{
    lemma_rise_squared_value(radius);
    let reach = reverb_reach(radius);
    let square = reverb_rise_squared(radius);
    lemma_floor_sqrt_exists(square);
    let rise = floor_sqrt(square);
    lemma_floor_sqrt_is(550_000, 302_500_000_000);
    lemma_floor_sqrt_monotone(square, 302_500_000_000);
    let span = MAX_REVERB - MIN_REVERB;
    let range = MAX_RADIUS - MIN_RADIUS;
    assert(span * span * reach == 302_500_000_000 * reach) by (nonlinear_arith)
        requires
            span == 550_000,
    ;
}

/// With reverb on the wet gain never falls as the distance grows.
pub proof fn lemma_reverb_monotone(near: int, far: int)
    requires
        near <= far,
    ensures
        reverb_of(near, true) <= reverb_of(far, true),
{
    lemma_rise_squared_value(near);
    lemma_rise_squared_value(far);
    lemma_floor_sqrt_monotone(reverb_rise_squared(near), reverb_rise_squared(far));
}

/// With reverb on the wet gain lies on or above the straight line from
/// `MIN_REVERB` at the shortest distance to `MAX_REVERB` at the longest, less
/// the one unit that rounding may take.
pub proof fn lemma_reverb_above_chord(radius: int)
    ensures
        (MAX_REVERB - MIN_REVERB) * reverb_reach(radius) < (reverb_of(radius, true) - MIN_REVERB
            + 1) * (MAX_RADIUS - MIN_RADIUS),
{
    lemma_reverb_follows_root(radius);
    let rise = reverb_of(radius, true) - MIN_REVERB;
    let reach = reverb_reach(radius);
    let up = rise + 1;
    if 550_000 * reach >= up * 9_900_000 {
        assert(550_000 * 550_000 * reach * reach >= up * up * 9_900_000 * 9_900_000)
            by (nonlinear_arith)
            requires
                550_000 * reach >= up * 9_900_000,
                up >= 1,
                reach >= 0,
        ;
        assert(550_000 * 550_000 * reach * reach <= 550_000 * 550_000 * reach * 9_900_000)
            by (nonlinear_arith)
            requires
                0 <= reach <= 9_900_000,
        ;
        assert(up * up * 9_900_000 * 9_900_000 > 550_000 * 550_000 * reach * 9_900_000)
            by (nonlinear_arith)
            requires
                550_000 * 550_000 * reach < up * up * 9_900_000,
        ;
    }
}

/// The square root of a 64-bit number, rounded down.
pub fn isqrt(square: u64) -> (root: u64)
    ensures
        root == floor_sqrt(square as int),
        is_floor_sqrt(root as int, square as int),
{
    let mut low: u64 = 0;
    let mut high: u64 = 0x1_0000_0000;
    while high - low > 1
        invariant
            low < high <= 0x1_0000_0000,
            low * low <= square,
            square < high * high,
        decreases high - low,
    {
        let middle: u64 = low + (high - low) / 2;
        assert(middle * middle <= 0xffff_ffff * 0xffff_ffff) by (nonlinear_arith)
            requires
                0 <= middle <= 0xffff_ffff,
        ;
        if middle * middle <= square {
            low = middle;
        } else {
            high = middle;
        }
    }
    proof {
        lemma_floor_sqrt_is(low as int, square as int);
    }
    low
}

/// Gain at a listening distance.
pub fn distance_gain(radius: u64) -> (gain: u64)
    ensures
        gain == gain_of(radius as int),
        MIN_GAIN <= gain <= MAX_GAIN,
{
    if radius == 0 {
        MAX_GAIN
    } else {
        let reciprocal: u64 = (UNIT * UNIT) / radius;
        if reciprocal < MIN_GAIN {
            MIN_GAIN
        } else if reciprocal > MAX_GAIN {
            MAX_GAIN
        } else {
            reciprocal
        }
    }
}

/// Reverb wet gain at a listening distance.
pub fn reverb_gain(radius: u64, enabled: bool) -> (wet: u64)
    ensures
        wet == reverb_of(radius as int, enabled),
        !enabled ==> wet == 0,
        enabled ==> MIN_REVERB <= wet <= MAX_REVERB,
{
    if !enabled {
        return 0;
    }
    let reach: u64 = if radius <= MIN_RADIUS {
        0
    } else if radius >= MAX_RADIUS {
        MAX_RADIUS - MIN_RADIUS
    } else {
        radius - MIN_RADIUS
    };
    let span: u64 = MAX_REVERB - MIN_REVERB;
    assert(span * span == 302_500_000_000) by (nonlinear_arith)
        requires
            span == 550_000,
    ;
    assert(span * span * reach == 302_500_000_000 * reach) by (nonlinear_arith)
        requires
            span * span == 302_500_000_000,
    ;
    assert((MAX_REVERB - MIN_REVERB) * (MAX_REVERB - MIN_REVERB) * reverb_reach(radius as int)
        == 302_500_000_000 * reach) by (nonlinear_arith)
        requires
            MAX_REVERB - MIN_REVERB == 550_000,
            reverb_reach(radius as int) == reach,
    ;
    let rise_squared: u64 = (span * span * reach) / (MAX_RADIUS - MIN_RADIUS);
    let rise: u64 = isqrt(rise_squared);
    proof {
        lemma_floor_sqrt_is(550_000, 302_500_000_000);
        lemma_floor_sqrt_monotone(rise_squared as int, 302_500_000_000);
    }
    MIN_REVERB + rise
}

/// Where the two virtual speakers stand relative to the head, and how loud
/// they are. Angles are not normalised.
#[derive(Clone, Copy, Debug, PartialEq, Eq)]
pub struct SpatialState {
    pub left_az: i128,
    pub right_az: i128,
    pub elevation: i128,
    pub radius: u64,
    pub gain: u64,
    pub reverb_gain: u64,
}

impl SpatialState {
    /// What `from_head_tracking` computes.
    pub open spec fn of(
        yaw: int,
        pitch: int,
        radius: int,
        mode: SpeakerMode,
        reverb_enabled: bool,
        width: int,
    ) -> SpatialState {
        SpatialState {
            left_az: azimuth_of(mode.base_angles_spec().0, width, yaw) as i128,
            right_az: azimuth_of(mode.base_angles_spec().1, width, yaw) as i128,
            elevation: (-pitch) as i128,
            radius: radius as u64,
            gain: gain_of(radius) as u64,
            reverb_gain: reverb_of(radius, reverb_enabled) as u64,
        }
    }

    /// Places the speakers for a head orientation and the current settings.
    pub fn from_head_tracking(
        yaw: i64,
        pitch: i64,
        radius: u64,
        mode: SpeakerMode,
        reverb_enabled: bool,
        width: u64,
    ) -> (state: Self)
        ensures
            state == Self::of(yaw as int, pitch as int, radius as int, mode, reverb_enabled, width as int),
            state.left_az == azimuth_of(mode.base_angles_spec().0, width as int, yaw as int),
            state.right_az == azimuth_of(mode.base_angles_spec().1, width as int, yaw as int),
            state.elevation == -pitch,
            state.radius == radius,
            state.gain == gain_of(radius as int),
            state.reverb_gain == reverb_of(radius as int, reverb_enabled),
    {
        let (left_base, right_base) = mode.base_angles();
        let wide: i128 = width as i128;
        assert(-135 * wide <= left_base * wide <= 135 * wide) by (nonlinear_arith)
            requires
                -135 <= left_base <= 135,
                0 <= wide,
        ;
        assert(-135 * wide <= right_base * wide <= 135 * wide) by (nonlinear_arith)
            requires
                -135 <= right_base <= 135,
                0 <= wide,
        ;
        let left_az: i128 = left_base as i128 * wide - yaw as i128;
        let right_az: i128 = right_base as i128 * wide - yaw as i128;
        let elevation: i128 = -(pitch as i128);
        let gain: u64 = distance_gain(radius);
        let reverb_gain: u64 = reverb_gain(radius, reverb_enabled);
        SpatialState { left_az, right_az, elevation, radius, gain, reverb_gain }
    }
}

} // verus!
