//! The tunable constants of the controller, in the fixed-point units that the
//! whole crate shares: a millionth of a degree, of a metre, or of one.

use vstd::prelude::*;

verus! {

/// How many units make one degree, one metre, or a gain of one.
pub const UNIT: u64 = 1_000_000;

/// Shortest listening distance.
pub const MIN_RADIUS: u64 = 100_000;

/// Longest listening distance.
pub const MAX_RADIUS: u64 = 10_000_000;

/// Listening distance at start-up.
pub const DEFAULT_RADIUS: u64 = 1_500_000;

/// Change of the listening distance per key press.
pub const RADIUS_STEP: u64 = 100_000;

/// Narrowest stereo width.
pub const MIN_WIDTH: u64 = 300_000;

/// Widest stereo width.
pub const MAX_WIDTH: u64 = 1_500_000;

/// Stereo width at start-up: the speakers stand at their base azimuths.
pub const DEFAULT_WIDTH: u64 = 1_000_000;

/// Change of the stereo width per key press.
pub const WIDTH_STEP: u64 = 100_000;

/// Lowest gain that the distance falloff yields.
pub const MIN_GAIN: u64 = 100_000;

/// Highest gain that the distance falloff yields.
pub const MAX_GAIN: u64 = 2_000_000;

/// Reverb wet gain at the shortest distance.
pub const MIN_REVERB: u64 = 50_000;

/// Reverb wet gain at the longest distance.
pub const MAX_REVERB: u64 = 600_000;

/// Least change of yaw or pitch that is worth a parameter update.
pub const CHANGE_THRESHOLD: u64 = 500_000;

/// Least change of the listening distance that is worth a parameter update.
pub const RADIUS_THRESHOLD: u64 = 10_000;

/// Least time between two evaluations of the geometry, in nanoseconds.
pub const UPDATE_INTERVAL_NS: u64 = 20_000_000;

/// Least time between two searches for the effect endpoint, in nanoseconds.
pub const DISCOVERY_INTERVAL_NS: u64 = 2_000_000_000;

/// Length of the window over which frames are counted, in nanoseconds.
pub const FPS_WINDOW_NS: u64 = 1_000_000_000;

/// How long the loop rests when no packet is waiting, in milliseconds.
pub const IDLE_SLEEP_MS: u64 = 5;

/// How long a receive may block, in milliseconds.
pub const RECEIVE_TIMEOUT_MS: u64 = 10;

/// Number of dispatch latencies kept for the running average.
pub const LATENCY_WINDOW: usize = 30;

/// Length of a motion packet in bytes.
pub const PACKET_LEN: usize = 48;

} // verus!
