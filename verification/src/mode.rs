//! The two virtual-speaker layouts.

use vstd::prelude::*;

verus! {

/// Base azimuth of the left speaker of the pair that stands before the ear
/// line, in whole degrees; the right speaker stands at its negative.
pub const FORE_PAIR_ANGLE: i64 = 45;

/// Base azimuth of the left speaker of the pair that stands behind the ear
/// line, in whole degrees; the right speaker stands at its negative.
pub const REAR_PAIR_ANGLE: i64 = 135;

/// Which pair of virtual speakers is rendered.
///
/// `Front` selects the pair behind the ear line and `Back` the pair before
/// it. Whether the names or the angles are the wrong way round is for a
/// listening test to decide; until then the mapping stays as it is.
#[derive(Clone, Copy, Debug, PartialEq, Eq, Structural)]
pub enum SpeakerMode {
    Front,
    Back,
}

impl SpeakerMode {
    /// The name of the mode as the operator sees it.
    pub open spec fn label_spec(self) -> Seq<char> {
        match self {
            SpeakerMode::Front => "FRONT"@,
            SpeakerMode::Back => "BACK"@,
        }
    }

    /// Base azimuths of the left and of the right speaker at full width, in
    /// whole degrees.
    pub open spec fn base_angles_spec(self) -> (int, int) {
        match self {
            SpeakerMode::Front => (REAR_PAIR_ANGLE as int, -REAR_PAIR_ANGLE),
            SpeakerMode::Back => (FORE_PAIR_ANGLE as int, -FORE_PAIR_ANGLE),
        }
    }

    /// The name of the mode as the operator sees it.
    pub fn label(&self) -> (s: &'static str)
        ensures
            s@ == self.label_spec(),
    {
        match self {
            SpeakerMode::Front => "FRONT",
            SpeakerMode::Back => "BACK",
        }
    }

    /// Base azimuths of the left and of the right speaker at full width, in
    /// whole degrees.
    pub fn base_angles(&self) -> (pair: (i64, i64))
        ensures
            pair.0 == self.base_angles_spec().0,
            pair.1 == self.base_angles_spec().1,
            pair.1 == -pair.0,
            pair.0 == FORE_PAIR_ANGLE || pair.0 == REAR_PAIR_ANGLE,
    {
        match self {
            SpeakerMode::Front => (REAR_PAIR_ANGLE, -REAR_PAIR_ANGLE),
            SpeakerMode::Back => (FORE_PAIR_ANGLE, -FORE_PAIR_ANGLE),
        }
    }
}

} // verus!
