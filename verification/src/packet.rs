//! The motion packet: 48 bytes that hold six little-endian IEEE-754 doubles,
//! `x, y, z, yaw, pitch, roll`, read into whole millionths without any
//! floating-point arithmetic.

use crate::units::PACKET_LEN;
use vstd::prelude::*;

verus! {

/// The largest magnitude a decoded field can have; values beyond it are held
/// at it.
pub const FIELD_LIMIT: i64 = 0x7fff_ffff_ffff_ffff;

/// Two raised to `exp`.
pub open spec fn two_to(exp: nat) -> int
    decreases exp,
{
    if exp == 0 {
        1
    } else {
        2 * two_to((exp - 1) as nat)
    }
}

/// The number that eight bytes spell, least significant byte first.
pub open spec fn le_u64(bytes: Seq<u8>) -> int
    recommends
        bytes.len() == 8,
{
    bytes[0] + 0x100 * bytes[1] + 0x1_0000 * bytes[2] + 0x100_0000 * bytes[3] + 0x1_0000_0000
        * bytes[4] + 0x100_0000_0000 * bytes[5] + 0x1_0000_0000_0000 * bytes[6]
        + 0x100_0000_0000_0000 * bytes[7]
}

/// Whether the sign bit of a double is set.
pub open spec fn f64_negative(bits: int) -> bool {
    bits >= 0x8000_0000_0000_0000
}

/// The biased exponent of a double.
pub open spec fn f64_exponent(bits: int) -> int {
    (bits / 0x10_0000_0000_0000) % 0x800
}

/// The fraction bits of a double.
pub open spec fn f64_fraction(bits: int) -> int {
    bits % 0x10_0000_0000_0000
}

/// Whether a double is not a number.
pub open spec fn f64_is_nan(bits: int) -> bool {
    f64_exponent(bits) == 0x7ff && f64_fraction(bits) != 0
}

/// Whether a double is an infinity.
pub open spec fn f64_is_infinite(bits: int) -> bool {
    f64_exponent(bits) == 0x7ff && f64_fraction(bits) == 0
}

/// The significand of a finite double: its fraction bits, with the hidden
/// one in front unless the double is subnormal.
pub open spec fn f64_significand(bits: int) -> int {
    if f64_exponent(bits) == 0 {
        f64_fraction(bits)
    } else {
        0x10_0000_0000_0000 + f64_fraction(bits)
    }
}

/// The power of two that scales the significand of a finite double.
pub open spec fn f64_scale(bits: int) -> int {
    if f64_exponent(bits) == 0 {
        -1074
    } else {
        f64_exponent(bits) - 1075
    }
}

/// The magnitude of a finite double in millionths:
/// `significand * 2^scale * 1_000_000`, rounded to the nearest whole number,
/// halves away from zero.
pub open spec fn f64_magnitude(bits: int) -> int {
    let scaled = f64_significand(bits) * 1_000_000;
    let scale = f64_scale(bits);
    if scale >= 0 {
        scaled * two_to(scale as nat)
    } else {
        (scaled + two_to((-scale - 1) as nat)) / two_to((-scale) as nat)
    }
}

/// A double in whole millionths. Not-a-number reads as zero; an infinity and
/// any value beyond `FIELD_LIMIT` reads as the limit with the value's sign.
pub open spec fn f64_millionths(bits: int) -> int {
    if f64_is_nan(bits) {
        0
    } else {
        let magnitude = if f64_is_infinite(bits) || f64_magnitude(bits) > FIELD_LIMIT {
            FIELD_LIMIT as int
        } else {
            f64_magnitude(bits)
        };
        if f64_negative(bits) {
            -magnitude
        } else {
            magnitude
        }
    }
}

/// Powers of two are positive and grow with the exponent.
pub proof fn lemma_two_to_grows(small: nat, large: nat)
    requires
        small <= large,
    ensures
        0 < two_to(small) <= two_to(large),
    decreases large,
{
    if large == 0 {
    } else if small < large {
        lemma_two_to_grows(small, (large - 1) as nat);
    } else {
        lemma_two_to_grows((small - 1) as nat, (large - 1) as nat);
    }
}

/// Two raised to `exp`, for an exponent that keeps the power within 128 bits.
fn power_of_two(exp: u32) -> (power: u128)
    requires
        exp <= 100,
    ensures
        power == two_to(exp as nat),
{
    let mut power: u128 = 1;
    let mut done: u32 = 0;
    proof {
        lemma_two_to_grows(0, 100);
    }
    while done < exp
        invariant
            done <= exp <= 100,
            power == two_to(done as nat),
            power <= two_to(100),
        decreases exp - done,
    {
        proof {
            lemma_two_to_grows((done + 1) as nat, 100);
            lemma_two_to_values();
        }
        power = power * 2;
        done = done + 1;
    }
    power
}

/// The powers of two that bound the arithmetic.
proof fn lemma_two_to_values()
    ensures
        two_to(100) == 0x10_0000_0000_0000_0000_0000_0000,
        two_to(73) == 0x2_0000_0000_0000_0000_00,
{
    assert(two_to(25) == 0x200_0000) by {
        reveal_with_fuel(two_to, 26);
    }
    assert(two_to(50) == 0x4_0000_0000_0000) by {
        lemma_two_to_adds(25, 25);
    }
    assert(two_to(73) == 0x2_0000_0000_0000_0000_00) by {
        assert(two_to(23) == 0x80_0000) by {
            reveal_with_fuel(two_to, 24);
        }
        lemma_two_to_adds(50, 23);
    }
    assert(two_to(100) == 0x10_0000_0000_0000_0000_0000_0000) by {
        lemma_two_to_adds(50, 50);
    }
}

/// Exponents add where powers multiply.
proof fn lemma_two_to_adds(a: nat, b: nat)
    ensures
        two_to(a + b) == two_to(a) * two_to(b),
    decreases a,
{
    if a == 0 {
        assert(two_to(0) * two_to(b) == two_to(b)) by (nonlinear_arith)
            requires
                two_to(0) == 1,
        ;
    } else {
        lemma_two_to_adds((a - 1) as nat, b);
        let rest = two_to((a - 1) as nat);
        let other = two_to(b);
        assert((2 * rest) * other == 2 * (rest * other)) by (nonlinear_arith);
    }
}

/// Reads the eight bytes at `offset` as a little-endian number.
fn read_u64(bytes: &[u8], offset: usize) -> (bits: u64)
    requires
        offset + 8 <= bytes.len(),
    ensures
        bits == le_u64(bytes@.subrange(offset as int, offset + 8)),
{
    let b0: u64 = bytes[offset] as u64;
    let b1: u64 = bytes[offset + 1] as u64;
    let b2: u64 = bytes[offset + 2] as u64;
    let b3: u64 = bytes[offset + 3] as u64;
    let b4: u64 = bytes[offset + 4] as u64;
    let b5: u64 = bytes[offset + 5] as u64;
    let b6: u64 = bytes[offset + 6] as u64;
    let b7: u64 = bytes[offset + 7] as u64;
    b0 + 0x100 * b1 + 0x1_0000 * b2 + 0x100_0000 * b3 + 0x1_0000_0000 * b4 + 0x100_0000_0000 * b5
        + 0x1_0000_0000_0000 * b6 + 0x100_0000_0000_0000 * b7
}

/// The magnitude of a finite double in millionths, held at `FIELD_LIMIT`.
fn magnitude_of(bits: u64) -> (magnitude: i64)
    requires
        f64_exponent(bits as int) != 0x7ff,
    ensures
        0 <= magnitude <= FIELD_LIMIT,
        magnitude == if f64_magnitude(bits as int) > FIELD_LIMIT {
            FIELD_LIMIT as int
        } else {
            f64_magnitude(bits as int)
        },
{
    let exponent: u64 = (bits / 0x10_0000_0000_0000) % 0x800;
    let fraction: u64 = bits % 0x10_0000_0000_0000;
    let significand: u64 = if exponent == 0 {
        fraction
    } else {
        0x10_0000_0000_0000 + fraction
    };
    let scaled: u128 = significand as u128 * 1_000_000;
    if exponent >= 1075 {
        proof {
            let up = (exponent - 1075) as nat;
            lemma_two_to_grows(0, up);
            assert(scaled * two_to(up) >= scaled) by (nonlinear_arith)
                requires
                    scaled >= 0,
                    two_to(up) >= 1,
            ;
        }
        return FIELD_LIMIT;
    }
    let down: u64 = if exponent == 0 {
        1074
    } else {
        1075 - exponent
    };
    if down >= 75 {
        proof {
            lemma_two_to_grows(73, (down - 1) as nat);
            lemma_two_to_values();
            let half = two_to((down - 1) as nat);
            let whole = two_to(down as nat);
            assert((scaled + half) / whole == 0) by (nonlinear_arith)
                requires
                    0 <= scaled + half < whole,
            ;
        }
        return 0;
    }
    let whole: u128 = power_of_two(down as u32);
    let half: u128 = power_of_two((down - 1) as u32);
    proof {
        lemma_two_to_grows(down as nat, 100);
        lemma_two_to_values();
    }
    let rounded: u128 = (scaled + half) / whole;
    if rounded > FIELD_LIMIT as u128 {
        FIELD_LIMIT
    } else {
        rounded as i64
    }
}

/// Reads a double, given as its bits, in whole millionths.
pub fn millionths_of_bits(bits: u64) -> (value: i64)
    ensures
        value == f64_millionths(bits as int),
        -FIELD_LIMIT <= value <= FIELD_LIMIT,
{
    let exponent: u64 = (bits / 0x10_0000_0000_0000) % 0x800;
    let fraction: u64 = bits % 0x10_0000_0000_0000;
    let negative: bool = bits >= 0x8000_0000_0000_0000;
    let magnitude: i64 = if exponent == 0x7ff {
        if fraction != 0 {
            return 0;
        }
        FIELD_LIMIT
    } else {
        magnitude_of(bits)
    };
    if negative {
        -magnitude
    } else {
        magnitude
    }
}

/// One motion sample as it came off the wire, every field in millionths of
/// the unit it was sent in (the orientation: degrees).
#[derive(Clone, Copy, Debug, PartialEq, Eq)]
pub struct RawMotionSample {
    pub x: i64,
    pub y: i64,
    pub z: i64,
    pub yaw: i64,
    pub pitch: i64,
    pub roll: i64,
}

/// The field of a packet that starts at byte `offset`.
pub open spec fn field_at(bytes: Seq<u8>, offset: int) -> int {
    f64_millionths(le_u64(bytes.subrange(offset, offset + 8)))
}

impl RawMotionSample {
    /// What a packet of the right length holds.
    pub open spec fn decoded(bytes: Seq<u8>) -> RawMotionSample {
        RawMotionSample {
            x: field_at(bytes, 0) as i64,
            y: field_at(bytes, 8) as i64,
            z: field_at(bytes, 16) as i64,
            yaw: field_at(bytes, 24) as i64,
            pitch: field_at(bytes, 32) as i64,
            roll: field_at(bytes, 40) as i64,
        }
    }

    /// Reads a packet. A packet of any length but `PACKET_LEN` holds nothing.
    pub fn parse(bytes: &[u8]) -> (sample: Option<Self>)
        ensures
            sample is Some <==> bytes@.len() == PACKET_LEN,
            sample matches Some(s) ==> {
                &&& s == Self::decoded(bytes@)
                &&& s.x == field_at(bytes@, 0)
                &&& s.y == field_at(bytes@, 8)
                &&& s.z == field_at(bytes@, 16)
                &&& s.yaw == field_at(bytes@, 24)
                &&& s.pitch == field_at(bytes@, 32)
                &&& s.roll == field_at(bytes@, 40)
            },
    {
        if bytes.len() != PACKET_LEN {
            return None;
        }
        let x: i64 = millionths_of_bits(read_u64(bytes, 0));
        let y: i64 = millionths_of_bits(read_u64(bytes, 8));
        let z: i64 = millionths_of_bits(read_u64(bytes, 16));
        let yaw: i64 = millionths_of_bits(read_u64(bytes, 24));
        let pitch: i64 = millionths_of_bits(read_u64(bytes, 32));
        let roll: i64 = millionths_of_bits(read_u64(bytes, 40));
        Some(RawMotionSample { x, y, z, yaw, pitch, roll })
    }
}

} // verus!
