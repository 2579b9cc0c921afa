//! The change gate: whether a newly computed state differs enough from the
//! one last sent to be worth a parameter update.

use crate::smoothing::gap;
use crate::units::{CHANGE_THRESHOLD, RADIUS_THRESHOLD};
use vstd::prelude::*;

verus! {

/// The orientation and distance of one parameter update.
#[derive(Clone, Copy, Debug, PartialEq, Eq)]
pub struct Dispatched {
    pub yaw: i64,
    pub pitch: i64,
    pub radius: u64,
}

/// What was last sent to the effect endpoint; `None` until the first update.
#[derive(Clone, Copy, Debug, PartialEq, Eq)]
pub struct DispatchMemory {
    pub last: Option<Dispatched>,
}

/// Whether an update is warranted: always when forced and when nothing was
/// sent yet, else when yaw or pitch has moved by more than
/// `CHANGE_THRESHOLD` or the distance by more than `RADIUS_THRESHOLD`.
pub open spec fn warranted(
    last: Option<Dispatched>,
    yaw: int,
    pitch: int,
    radius: int,
    forced: bool,
) -> bool {
    match last {
        None => true,
        Some(sent) => {
            ||| forced
            ||| gap(yaw, sent.yaw as int) > CHANGE_THRESHOLD
            ||| gap(pitch, sent.pitch as int) > CHANGE_THRESHOLD
            ||| gap(radius, sent.radius as int) > RADIUS_THRESHOLD
        },
    }
}

/// What the memory holds after a decision: the state just used if the
/// decision was to send, else what it held.
pub open spec fn remembered(
    last: Option<Dispatched>,
    yaw: i64,
    pitch: i64,
    radius: u64,
    forced: bool,
) -> Option<Dispatched> {
    if warranted(last, yaw as int, pitch as int, radius as int, forced) {
        Some(Dispatched { yaw, pitch, radius })
    } else {
        last
    }
}

/// A forced update is always warranted.
pub proof fn lemma_forced_is_warranted(last: Option<Dispatched>, yaw: int, pitch: int, radius: int)
    ensures
        warranted(last, yaw, pitch, radius, true),
{
}

/// The state that was just sent does not warrant a second update, however
/// often it is offered again.
pub proof fn lemma_repeat_is_not_warranted(
    last: Option<Dispatched>,
    yaw: i64,
    pitch: i64,
    radius: u64,
    forced: bool,
)
    requires
        warranted(last, yaw as int, pitch as int, radius as int, forced),
    ensures
        ({
            let after = remembered(last, yaw, pitch, radius, forced);
            &&& !warranted(after, yaw as int, pitch as int, radius as int, false)
            &&& remembered(after, yaw, pitch, radius, false) == after
        }),
{
}

/// With pitch and distance as they were sent, an unforced update is
/// warranted exactly when the yaw has moved by more than the threshold: a
/// move of just the threshold is not enough.
pub proof fn lemma_yaw_threshold(sent: Dispatched, yaw: int)
    ensures
        warranted(Some(sent), yaw, sent.pitch as int, sent.radius as int, false) <==> gap(
            yaw,
            sent.yaw as int,
        ) > CHANGE_THRESHOLD,
{
}

/// With yaw and distance as they were sent, an unforced update is warranted
/// exactly when the pitch has moved by more than the threshold.
pub proof fn lemma_pitch_threshold(sent: Dispatched, pitch: int)
    ensures
        warranted(Some(sent), sent.yaw as int, pitch, sent.radius as int, false) <==> gap(
            pitch,
            sent.pitch as int,
        ) > CHANGE_THRESHOLD,
{
}

/// With yaw and pitch as they were sent, an unforced update is warranted
/// exactly when the distance has moved by more than its threshold.
pub proof fn lemma_radius_threshold(sent: Dispatched, radius: int)
    ensures
        warranted(Some(sent), sent.yaw as int, sent.pitch as int, radius, false) <==> gap(
            radius,
            sent.radius as int,
        ) > RADIUS_THRESHOLD,
{
}

/// Whether two angles are more than `threshold` apart.
fn angle_moved(now: i64, then: i64, threshold: u64) -> (moved: bool)
    ensures
        moved == (gap(now as int, then as int) > threshold),
{
    let distance: i128 = if now >= then {
        now as i128 - then as i128
    } else {
        then as i128 - now as i128
    };
    distance > threshold as i128
}

/// Whether two distances are more than `threshold` apart.
fn distance_moved(now: u64, then: u64, threshold: u64) -> (moved: bool)
    ensures
        moved == (gap(now as int, then as int) > threshold),
{
    let distance: u64 = if now >= then {
        now - then
    } else {
        then - now
    };
    distance > threshold
}

impl DispatchMemory {
    /// The memory before anything was sent.
    pub fn new() -> (memory: Self)
        ensures
            memory.last is None,
    {
        DispatchMemory { last: None }
    }

    /// Whether an update with this state is warranted.
    pub fn should_dispatch(&self, yaw: i64, pitch: i64, radius: u64, forced: bool) -> (send: bool)
        ensures
            send == warranted(self.last, yaw as int, pitch as int, radius as int, forced),
    {
        match self.last {
            None => true,
            Some(sent) => forced || angle_moved(yaw, sent.yaw, CHANGE_THRESHOLD) || angle_moved(
                pitch,
                sent.pitch,
                CHANGE_THRESHOLD,
            ) || distance_moved(radius, sent.radius, RADIUS_THRESHOLD),
        }
    }

    /// Decides whether an update with this state is warranted and, if it is,
    /// remembers the state as sent.
    pub fn evaluate(&mut self, yaw: i64, pitch: i64, radius: u64, forced: bool) -> (send: bool)
        ensures
            send == warranted(old(self).last, yaw as int, pitch as int, radius as int, forced),
            final(self).last == remembered(old(self).last, yaw, pitch, radius, forced),
    {
        let send = self.should_dispatch(yaw, pitch, radius, forced);
        if send {
            self.last = Some(Dispatched { yaw, pitch, radius });
        }
        send
    }
}

} // verus!
