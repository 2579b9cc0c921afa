//! What a parameter update says, and how long the last updates took to hand
//! over.

use crate::geometry::SpatialState;
use crate::units::{LATENCY_WINDOW, UNIT};
use vstd::prelude::*;
use vstd::string::*;

verus! {

/// The character of a decimal digit.
pub open spec fn digit_char(digit: int) -> char
    recommends
        0 <= digit <= 9,
{
    if digit == 0 {
        '0'
    } else if digit == 1 {
        '1'
    } else if digit == 2 {
        '2'
    } else if digit == 3 {
        '3'
    } else if digit == 4 {
        '4'
    } else if digit == 5 {
        '5'
    } else if digit == 6 {
        '6'
    } else if digit == 7 {
        '7'
    } else if digit == 8 {
        '8'
    } else {
        '9'
    }
}

/// A natural number in decimal, without leading zeros.
pub open spec fn decimal(number: int) -> Seq<char>
    decreases number,
{
    if number < 10 {
        seq![digit_char(number)]
    } else {
        decimal(number / 10).push(digit_char(number % 10))
    }
}

/// A count of millionths in hundredths, rounded to the nearest, halves up.
pub open spec fn hundredths(magnitude: int) -> int {
    (magnitude + 5_000) / 10_000
}

/// A value in millionths as a decimal number with two places: a minus sign
/// if the value is negative, the whole part, a point, and the hundredths,
/// rounded to the nearest with halves away from zero.
pub open spec fn two_places(value: int) -> Seq<char> {
    let magnitude = if value < 0 {
        -value
    } else {
        value
    };
    let sign = if value < 0 {
        seq!['-']
    } else {
        Seq::<char>::empty()
    };
    let cents = hundredths(magnitude);
    sign + decimal(cents / 100) + seq!['.', digit_char((cents / 10) % 10), digit_char(cents % 10)]
}

/// The dry gain that goes with a reverb wet gain.
pub open spec fn dry_of(reverb_gain: int) -> int {
    UNIT - reverb_gain
}

/// The parameter update for a spatial state: azimuth, elevation, radius and
/// gain of the left and of the right speaker, then the dry and the wet gain
/// of the left and of the right output mixer.
pub open spec fn payload_text(spatial: SpatialState) -> Seq<char> {
    let dry = dry_of(spatial.reverb_gain as int);
    "{ \"params\": [ \"spat_left:Azimuth\", "@ + two_places(spatial.left_az as int)
        + ", \"spat_left:Elevation\", "@ + two_places(spatial.elevation as int)
        + ", \"spat_left:Radius\", "@ + two_places(spatial.radius as int)
        + ", \"spat_left:Gain\", "@ + two_places(spatial.gain as int)
        + ", \"spat_right:Azimuth\", "@ + two_places(spatial.right_az as int)
        + ", \"spat_right:Elevation\", "@ + two_places(spatial.elevation as int)
        + ", \"spat_right:Radius\", "@ + two_places(spatial.radius as int)
        + ", \"spat_right:Gain\", "@ + two_places(spatial.gain as int)
        + ", \"final_mix_l:Gain 1\", "@ + two_places(dry) + ", \"final_mix_l:Gain 2\", "@
        + two_places(spatial.reverb_gain as int) + ", \"final_mix_r:Gain 1\", "@ + two_places(dry)
        + ", \"final_mix_r:Gain 2\", "@ + two_places(spatial.reverb_gain as int) + " ] }"@
}

/// The text of one decimal digit.
fn digit_text(digit: u8) -> (text: &'static str)
    requires
        digit <= 9,
    ensures
        text@ == seq![digit_char(digit as int)],
{
    proof {
        reveal_strlit("0");
        reveal_strlit("1");
        reveal_strlit("2");
        reveal_strlit("3");
        reveal_strlit("4");
        reveal_strlit("5");
        reveal_strlit("6");
        reveal_strlit("7");
        reveal_strlit("8");
        reveal_strlit("9");
    }
    let text = if digit == 0 {
        "0"
    } else if digit == 1 {
        "1"
    } else if digit == 2 {
        "2"
    } else if digit == 3 {
        "3"
    } else if digit == 4 {
        "4"
    } else if digit == 5 {
        "5"
    } else if digit == 6 {
        "6"
    } else if digit == 7 {
        "7"
    } else if digit == 8 {
        "8"
    } else {
        "9"
    };
    text
}

/// Appends a natural number in decimal.
fn push_decimal(out: &mut String, number: u128)
    ensures
        final(out)@ == old(out)@ + decimal(number as int),
    decreases number,
{
    if number >= 10 {
        push_decimal(out, number / 10);
    }
    out.append(digit_text((number % 10) as u8));
}

/// Appends a value in millionths as a decimal number with two places.
pub fn push_two_places(out: &mut String, value: i128)
    ensures
        final(out)@ == old(out)@ + two_places(value as int),
{
    proof {
        reveal_strlit("-");
        reveal_strlit(".");
    }
    let magnitude: u128 = if value < 0 {
        if value == i128::MIN {
            0x8000_0000_0000_0000_0000_0000_0000_0000
        } else {
            (-value) as u128
        }
    } else {
        value as u128
    };
    if value < 0 {
        out.append("-");
    }
    let cents: u128 = (magnitude + 5_000) / 10_000;
    push_decimal(out, cents / 100);
    out.append(".");
    out.append(digit_text(((cents / 10) % 10) as u8));
    out.append(digit_text((cents % 10) as u8));
}

/// A value in millionths as a decimal number with two places.
pub fn format_two_places(value: i128) -> (text: String)
    ensures
        text@ == two_places(value as int),
{
    let mut text = String::new();
    push_two_places(&mut text, value);
    text
}

/// Writes the parameter update for a spatial state.
pub fn update_payload(spatial: &SpatialState) -> (payload: String)
    ensures
        payload@ == payload_text(*spatial),
{
    let dry: i128 = UNIT as i128 - spatial.reverb_gain as i128;
    let mut out = String::new();
    out.append("{ \"params\": [ \"spat_left:Azimuth\", ");
    push_two_places(&mut out, spatial.left_az);
    out.append(", \"spat_left:Elevation\", ");
    push_two_places(&mut out, spatial.elevation);
    out.append(", \"spat_left:Radius\", ");
    push_two_places(&mut out, spatial.radius as i128);
    out.append(", \"spat_left:Gain\", ");
    push_two_places(&mut out, spatial.gain as i128);
    out.append(", \"spat_right:Azimuth\", ");
    push_two_places(&mut out, spatial.right_az);
    out.append(", \"spat_right:Elevation\", ");
    push_two_places(&mut out, spatial.elevation);
    out.append(", \"spat_right:Radius\", ");
    push_two_places(&mut out, spatial.radius as i128);
    out.append(", \"spat_right:Gain\", ");
    push_two_places(&mut out, spatial.gain as i128);
    out.append(", \"final_mix_l:Gain 1\", ");
    push_two_places(&mut out, dry);
    out.append(", \"final_mix_l:Gain 2\", ");
    push_two_places(&mut out, spatial.reverb_gain as i128);
    out.append(", \"final_mix_r:Gain 1\", ");
    push_two_places(&mut out, dry);
    out.append(", \"final_mix_r:Gain 2\", ");
    push_two_places(&mut out, spatial.reverb_gain as i128);
    out.append(" ] }");
    out
}

/// The sum of a run of durations.
pub open spec fn total(samples: Seq<u64>) -> int
    decreases samples.len(),
{
    if samples.len() == 0 {
        0
    } else {
        total(samples.drop_last()) + samples.last()
    }
}

/// The mean of a run of durations, rounded down; zero for an empty run.
pub open spec fn mean(samples: Seq<u64>) -> int {
    if samples.len() == 0 {
        0
    } else {
        total(samples) / (samples.len() as int)
    }
}

/// The window after one more duration: the new one joins at the end, and
/// the oldest leaves if that makes more than `LATENCY_WINDOW`.
pub open spec fn slid(samples: Seq<u64>, latest: u64) -> Seq<u64> {
    let grown = samples.push(latest);
    if grown.len() > LATENCY_WINDOW {
        grown.drop_first()
    } else {
        grown
    }
}

/// A run of durations sums to no more than its length times the longest
/// duration there is.
pub proof fn lemma_total_bounded(samples: Seq<u64>)
    ensures
        0 <= total(samples) <= samples.len() * 0xffff_ffff_ffff_ffff,
    decreases samples.len(),
{
    if samples.len() > 0 {
        lemma_total_bounded(samples.drop_last());
    }
}

/// The mean of a run of durations is itself a duration.
pub proof fn lemma_mean_bounded(samples: Seq<u64>)
    ensures
        0 <= mean(samples) <= 0xffff_ffff_ffff_ffff,
{
    lemma_total_bounded(samples);
    if samples.len() > 0 {
        let n = samples.len() as int;
        let sum = total(samples);
        assert(sum / n <= 0xffff_ffff_ffff_ffff) by (nonlinear_arith)
            requires
                n > 0,
                0 <= sum <= n * 0xffff_ffff_ffff_ffff,
        ;
        assert(0 <= sum / n) by (nonlinear_arith)
            requires
                n > 0,
                0 <= sum,
        ;
    }
}

/// The most recent dispatch latencies, oldest first, in nanoseconds, with
/// their running mean.
#[derive(Debug)]
pub struct LatencyHistory {
    samples: Vec<u64>,
    average: u64,
}

impl View for LatencyHistory {
    type V = Seq<u64>;

    closed spec fn view(&self) -> Seq<u64> {
        self.samples@
    }
}

impl LatencyHistory {
    #[verifier::type_invariant]
    closed spec fn consistent(self) -> bool {
        &&& self.samples@.len() <= LATENCY_WINDOW
        &&& self.average == mean(self.samples@)
    }

    /// An empty history.
    pub fn new() -> (history: Self)
        ensures
            history@ == Seq::<u64>::empty(),
    {
        LatencyHistory { samples: Vec::new(), average: 0 }
    }

    /// Takes one more latency into the window and recomputes the mean.
    pub fn record(&mut self, latency_ns: u64)
        ensures
            final(self)@ == slid(old(self)@, latency_ns),
            final(self)@.len() <= LATENCY_WINDOW,
    {
        proof {
            use_type_invariant(&*self);
        }
        let mut samples: Vec<u64> = Vec::new();
        let start: usize = if self.samples.len() >= LATENCY_WINDOW {
            self.samples.len() + 1 - LATENCY_WINDOW
        } else {
            0
        };
        let mut at: usize = start;
        while at < self.samples.len()
            invariant
                start <= at <= self.samples@.len(),
                samples@ == self.samples@.subrange(start as int, at as int),
            decreases self.samples@.len() - at,
        {
            samples.push(self.samples[at]);
            at = at + 1;
        }
        samples.push(latency_ns);
        let average: u64 = mean_of(&samples);
        *self = LatencyHistory { samples, average };
    }

    /// The running mean of the window, zero while it is empty.
    pub fn average_ns(&self) -> (average: u64)
        ensures
            average == mean(self@),
    {
        proof {
            use_type_invariant(self);
        }
        self.average
    }

    /// How many latencies the window holds.
    pub fn len(&self) -> (len: usize)
        ensures
            len == self@.len(),
            len <= LATENCY_WINDOW,
    {
        proof {
            use_type_invariant(self);
        }
        self.samples.len()
    }

    /// The latencies in the window, oldest first.
    pub fn samples(&self) -> (samples: Vec<u64>)
        ensures
            samples@ == self@,
    {
        self.samples.clone()
    }
}

/// The mean of a run of durations.
pub fn mean_of(samples: &Vec<u64>) -> (average: u64)
    ensures
        average == mean(samples@),
{
    if samples.len() == 0 {
        return 0;
    }
    let mut sum: u128 = 0;
    let mut at: usize = 0;
    while at < samples.len()
        invariant
            at <= samples@.len(),
            sum == total(samples@.take(at as int)),
            sum <= at * 0xffff_ffff_ffff_ffff,
        decreases samples@.len() - at,
    {
        proof {
            assert(samples@.take(at + 1).drop_last() =~= samples@.take(at as int));
        }
        sum = sum + samples[at] as u128;
        at = at + 1;
    }
    proof {
        assert(samples@.take(at as int) =~= samples@);
        lemma_mean_bounded(samples@);
    }
    (sum / samples.len() as u128) as u64
}

} // verus!
