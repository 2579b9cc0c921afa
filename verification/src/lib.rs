//! Control core of a head-tracked virtual-speaker effect.
//!
//! Head orientation comes in as motion packets, is smoothed, and is turned
//! into the azimuth, elevation, gain and reverb mix of two virtual speakers.
//! A change gate and a pace keep the traffic to the effect endpoint low; the
//! operator moves the speakers with the keyboard.
//!
//! Every quantity is a whole number of millionths: angles in millionths of a
//! degree, distances in millionths of a metre, gains and the stereo width in
//! millionths of one. Times are whole nanoseconds. Nothing in the crate
//! computes in floating point.
//!
//! The crate does no input or output. `control::ControlLoop` takes events
//! (a key, a listing of the audio server's objects, a packet) with the time
//! at which they came, and says what is to be done.

pub mod control;
pub mod dispatch;
pub mod display;
pub mod gate;
pub mod geometry;
pub mod locator;
pub mod mode;
pub mod packet;
pub mod settings;
pub mod smoothing;
pub mod units;
