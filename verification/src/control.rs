//! The control loop as a state machine. Whoever drives it polls the
//! keyboard, the clock and the motion socket, hands each event over, and
//! carries out what comes back: leave, search for the endpoint, send a
//! parameter update, draw, or rest.
//!
//! Times are nanoseconds on a clock that does not run backwards.

use crate::dispatch::{mean, slid, LatencyHistory};
use crate::gate::{remembered, warranted, DispatchMemory};
use crate::geometry::SpatialState;
use crate::locator::{find_spatializer_node, located, search_is_due, EndpointState};
use crate::packet::RawMotionSample;
use crate::settings::{
    apply_key_press, handle_key_event, key_press_in, ControlSettings, KeyAction, KeyPress,
    SettingsModel,
};
use crate::smoothing::{blend, SmoothedState};
use crate::units::{FPS_WINDOW_NS, LATENCY_WINDOW, PACKET_LEN, UPDATE_INTERVAL_NS};
use crossterm::event::KeyEvent;
use vstd::prelude::*;

verus! {

/// Frames evaluated in the current window, and the rate of the last full
/// window in thousandths of a frame per second.
#[derive(Clone, Copy, Debug, PartialEq, Eq)]
pub struct FrameCounter {
    pub frame_count: u32,
    pub window_start: u64,
    pub fps_milli: u64,
}

/// Time that has passed from `then` to `now`; none if `now` is the earlier.
pub open spec fn elapsed(then: u64, now: u64) -> int {
    if now >= then {
        now - then
    } else {
        0
    }
}

impl FrameCounter {
    /// The counter after one more frame at time `now`. When the window has
    /// lasted `FPS_WINDOW_NS` it closes: the rate is the frames counted over
    /// the time the window lasted, and a new window starts.
    pub open spec fn counted(self, now: u64) -> FrameCounter {
        let frames: int = if self.frame_count < u32::MAX {
            self.frame_count + 1
        } else {
            self.frame_count as int
        };
        let lasted = elapsed(self.window_start, now);
        if lasted >= FPS_WINDOW_NS {
            FrameCounter {
                frame_count: 0,
                window_start: now,
                fps_milli: ((frames * 1_000_000_000_000) / lasted) as u64,
            }
        } else {
            FrameCounter { frame_count: frames as u32, ..self }
        }
    }

    /// A counter whose first window starts at `now`.
    pub fn new(now: u64) -> (counter: Self)
        ensures
            counter == (FrameCounter { frame_count: 0, window_start: now, fps_milli: 0 }),
    {
        FrameCounter { frame_count: 0, window_start: now, fps_milli: 0 }
    }

    /// Counts one frame at time `now`.
    pub fn count(&mut self, now: u64)
        ensures
            *final(self) == old(self).counted(now),
    {
        let frames: u32 = if self.frame_count < u32::MAX {
            self.frame_count + 1
        } else {
            self.frame_count
        };
        let lasted: u64 = if now >= self.window_start {
            now - self.window_start
        } else {
            0
        };
        if lasted >= FPS_WINDOW_NS {
            let scaled: u128 = frames as u128 * 1_000_000_000_000;
            let rate: u128 = scaled / lasted as u128;
            assert(rate <= scaled / 1_000_000_000) by (nonlinear_arith)
                requires
                    rate == scaled / (lasted as u128),
                    lasted >= 1_000_000_000,
                    scaled >= 0,
            ;
            self.frame_count = 0;
            self.window_start = now;
            self.fps_milli = rate as u64;
        } else {
            self.frame_count = frames;
        }
    }
}

/// What became of a packet.
#[derive(Clone, Copy, Debug, PartialEq, Eq)]
pub enum Tick {
    /// The packet had the wrong length and was dropped.
    Discarded,
    /// The sample went into the filter; it came too soon after the last
    /// evaluation for anything more.
    Throttled,
    /// The geometry was evaluated. `dispatch` says whether a parameter
    /// update with `spatial` is to be sent to the endpoint.
    Evaluated { spatial: SpatialState, dispatch: bool },
}

/// What drives the pace of the loop: a packet that arrived, or a tick that
/// was finished, each with its time.
pub enum LoopEvent {
    Packet { bytes: Seq<u8>, at: u64 },
    Finished { at: u64 },
}

impl LoopEvent {
    /// The time of the event.
    pub open spec fn at(self) -> u64 {
        match self {
            LoopEvent::Packet { at, .. } => at,
            LoopEvent::Finished { at } => at,
        }
    }
}

/// Everything the control loop owns.
#[derive(Debug)]
pub struct ControlLoop {
    pub smoothed: SmoothedState,
    pub settings: ControlSettings,
    pub memory: DispatchMemory,
    pub endpoint: EndpointState,
    pub latency: LatencyHistory,
    pub frames: FrameCounter,
    pub raw: Option<RawMotionSample>,
    pub packet_count: u64,
    pub force_update: bool,
    pub last_update: u64,
}

impl ControlLoop {
    /// Whether a sample that arrives at `now` comes too soon: less than
    /// `UPDATE_INTERVAL_NS` after the last evaluation, and no settings change
    /// is waiting to be sent.
    pub open spec fn throttles(self, now: u64) -> bool {
        elapsed(self.last_update, now) < UPDATE_INTERVAL_NS && !self.force_update
    }

    /// The filter after a sample.
    pub open spec fn filtered(self, sample: RawMotionSample) -> SmoothedState {
        SmoothedState {
            yaw: blend(self.smoothed.yaw as int, sample.yaw as int) as i64,
            pitch: blend(self.smoothed.pitch as int, sample.pitch as int) as i64,
            roll: blend(self.smoothed.roll as int, sample.roll as int) as i64,
        }
    }

    /// The packet count after one more packet.
    pub open spec fn packets_after(self) -> u64 {
        if self.packet_count < u64::MAX {
            (self.packet_count + 1) as u64
        } else {
            self.packet_count
        }
    }

    /// The geometry for a sample under the current settings.
    pub open spec fn placed(self, sample: RawMotionSample) -> SpatialState {
        let filtered = self.filtered(sample);
        SpatialState::of(
            filtered.yaw as int,
            filtered.pitch as int,
            self.settings@.radius,
            self.settings@.mode,
            self.settings@.reverb_enabled,
            self.settings@.width,
        )
    }

    /// Whether a sample, once evaluated, is to be sent: the endpoint is
    /// known and the change gate lets it pass.
    pub open spec fn sends(self, sample: RawMotionSample) -> bool {
        let filtered = self.filtered(sample);
        self.endpoint.identifier is Some && warranted(
            self.memory.last,
            filtered.yaw as int,
            filtered.pitch as int,
            self.settings@.radius,
            self.force_update,
        )
    }

    /// What becomes of a packet that arrives at `now`.
    pub open spec fn outcome(self, bytes: Seq<u8>, now: u64) -> Tick {
        if bytes.len() != PACKET_LEN {
            Tick::Discarded
        } else if self.throttles(now) {
            Tick::Throttled
        } else {
            let sample = RawMotionSample::decoded(bytes);
            Tick::Evaluated { spatial: self.placed(sample), dispatch: self.sends(sample) }
        }
    }

    /// The loop after a packet that arrives at `now`. A packet of the wrong
    /// length changes nothing. Any other is counted and goes into the
    /// filter. If it is evaluated as well, the change gate remembers what is
    /// sent, a waiting settings change is taken as sent, the frame is
    /// counted, and the time of the evaluation is kept.
    pub open spec fn next(self, bytes: Seq<u8>, now: u64) -> ControlLoop {
        if bytes.len() != PACKET_LEN {
            self
        } else {
            let sample = RawMotionSample::decoded(bytes);
            let filtered = self.filtered(sample);
            let heard = ControlLoop {
                smoothed: filtered,
                raw: Some(sample),
                packet_count: self.packets_after(),
                ..self
            };
            if self.throttles(now) {
                heard
            } else {
                ControlLoop {
                    memory: DispatchMemory {
                        last: if self.endpoint.identifier is Some {
                            remembered(
                                self.memory.last,
                                filtered.yaw,
                                filtered.pitch,
                                self.settings@.radius as u64,
                                self.force_update,
                            )
                        } else {
                            self.memory.last
                        },
                    },
                    frames: self.frames.counted(now),
                    force_update: false,
                    last_update: now,
                    ..heard
                }
            }
        }
    }

    /// The loop after a tick was finished at `now`: the time of the last
    /// evaluation moves on to `now`, and never back.
    pub open spec fn finished(self, now: u64) -> ControlLoop {
        if now > self.last_update {
            ControlLoop { last_update: now, ..self }
        } else {
            self
        }
    }

    /// The loop after an event.
    pub open spec fn after(self, event: LoopEvent) -> ControlLoop {
        match event {
            LoopEvent::Packet { bytes, at } => self.next(bytes, at),
            LoopEvent::Finished { at } => self.finished(at),
        }
    }

    /// Whether an event is a packet that is evaluated.
    pub open spec fn evaluates(self, event: LoopEvent) -> bool {
        match event {
            LoopEvent::Packet { bytes, at } => self.outcome(bytes, at) is Evaluated,
            LoopEvent::Finished { .. } => false,
        }
    }

    /// How many packets of a run of events are evaluated.
    pub open spec fn evaluations(self, events: Seq<LoopEvent>) -> nat
        decreases events.len(),
    {
        if events.len() == 0 {
            0
        } else {
            let here: nat = if self.evaluates(events[0]) {
                1
            } else {
                0
            };
            here + self.after(events[0]).evaluations(events.drop_first())
        }
    }

    /// The loop at time `now`, before any event.
    pub fn new(now: u64) -> (state: Self)
        ensures
            state.smoothed == (SmoothedState { yaw: 0, pitch: 0, roll: 0 }),
            state.settings@ == SettingsModel::initial(),
            state.memory.last is None,
            state.endpoint.identifier is None,
            state.endpoint.last_attempt == now,
            state.latency@ == Seq::<u64>::empty(),
            state.frames == (FrameCounter { frame_count: 0, window_start: now, fps_milli: 0 }),
            state.raw is None,
            state.packet_count == 0,
            !state.force_update,
            state.last_update == now,
    {
        ControlLoop {
            smoothed: SmoothedState::new(),
            settings: ControlSettings::new(),
            memory: DispatchMemory::new(),
            endpoint: EndpointState::new(now),
            latency: LatencyHistory::new(),
            frames: FrameCounter::new(now),
            raw: None,
            packet_count: 0,
            force_update: false,
            last_update: now,
        }
    }

    /// Takes a key press. A press that changed a setting makes the next
    /// sample be evaluated and sent whatever the pace and the change gate
    /// say.
    pub fn on_key(&mut self, press: KeyPress) -> (action: KeyAction)
        ensures
            action == old(self).settings@.action(press),
            final(self).settings@ == old(self).settings@.after(press),
            final(self).settings@.valid(),
            final(self).force_update == (old(self).force_update || action == KeyAction::Changed),
            final(self).smoothed == old(self).smoothed,
            final(self).memory == old(self).memory,
            final(self).endpoint == old(self).endpoint,
            final(self).latency == old(self).latency,
            final(self).frames == old(self).frames,
            final(self).raw == old(self).raw,
            final(self).packet_count == old(self).packet_count,
            final(self).last_update == old(self).last_update,
    {
        let action = apply_key_press(press, &mut self.settings);
        if action == KeyAction::Changed {
            self.force_update = true;
        }
        action
    }

    /// Takes a key event of the terminal: what `on_key` does with the key
    /// press that the event holds.
    pub fn on_key_event(&mut self, key: KeyEvent) -> (action: KeyAction)
        ensures
            action == old(self).settings@.action(key_press_in(key)),
            final(self).settings@ == old(self).settings@.after(key_press_in(key)),
            final(self).settings@.valid(),
            final(self).force_update == (old(self).force_update || action == KeyAction::Changed),
            final(self).smoothed == old(self).smoothed,
            final(self).memory == old(self).memory,
            final(self).endpoint == old(self).endpoint,
            final(self).latency == old(self).latency,
            final(self).frames == old(self).frames,
            final(self).raw == old(self).raw,
            final(self).packet_count == old(self).packet_count,
            final(self).last_update == old(self).last_update,
    {
        let action = handle_key_event(key, &mut self.settings);
        if action == KeyAction::Changed {
            self.force_update = true;
        }
        action
    }

    /// Whether the endpoint is to be searched for at time `now`.
    pub fn discovery_due(&self, now: u64) -> (due: bool)
        ensures
            due == search_is_due(
                self.endpoint.identifier is Some,
                self.endpoint.last_attempt as int,
                now as int,
            ),
    {
        self.endpoint.search_due(now)
    }

    /// Takes the listing that a search at time `now` brought, or `None` if
    /// the search brought nothing to read.
    pub fn on_listing(&mut self, listing: Option<&str>, now: u64)
        ensures
            old(self).endpoint.identifier is Some ==> final(self).endpoint == old(self).endpoint,
            old(self).endpoint.identifier is None ==> {
                &&& final(self).endpoint.last_attempt == now
                &&& final(self).endpoint.identifier is Some <==> (listing matches Some(text)
                    && located(text@) is Some)
                &&& final(self).endpoint.identifier matches Some(id) ==> listing matches Some(text)
                    && located(text@) == Some(id@)
            },
            final(self).smoothed == old(self).smoothed,
            final(self).settings == old(self).settings,
            final(self).memory == old(self).memory,
            final(self).latency == old(self).latency,
            final(self).frames == old(self).frames,
            final(self).raw == old(self).raw,
            final(self).packet_count == old(self).packet_count,
            final(self).force_update == old(self).force_update,
            final(self).last_update == old(self).last_update,
    {
        let found: Option<String> = match listing {
            Some(text) => find_spatializer_node(text),
            None => None,
        };
        self.endpoint.record(found, now);
    }

    /// Takes a packet that arrived at time `now`.
    pub fn on_packet(&mut self, bytes: &[u8], now: u64) -> (tick: Tick)
        ensures
            tick == old(self).outcome(bytes@, now),
            *final(self) == old(self).next(bytes@, now),
    {
        let sample = match RawMotionSample::parse(bytes) {
            Some(sample) => sample,
            None => {
                return Tick::Discarded;
            },
        };
        let too_soon: bool = !self.force_update && (now < self.last_update || now
            - self.last_update < UPDATE_INTERVAL_NS);
        if self.packet_count < u64::MAX {
            self.packet_count = self.packet_count + 1;
        }
        self.raw = Some(sample);
        self.smoothed.update(sample.yaw, sample.pitch, sample.roll);
        if too_soon {
            return Tick::Throttled;
        }
        let radius: u64 = self.settings.radius();
        let spatial = SpatialState::from_head_tracking(
            self.smoothed.yaw,
            self.smoothed.pitch,
            radius,
            self.settings.mode(),
            self.settings.reverb_enabled(),
            self.settings.width(),
        );
        let dispatch: bool = if self.endpoint.is_found() {
            self.memory.evaluate(self.smoothed.yaw, self.smoothed.pitch, radius, self.force_update)
        } else {
            false
        };
        self.force_update = false;
        self.frames.count(now);
        self.last_update = now;
        Tick::Evaluated { spatial, dispatch }
    }

    /// Takes the time that handing over a parameter update took.
    pub fn record_latency(&mut self, latency_ns: u64)
        ensures
            final(self).latency@ == slid(old(self).latency@, latency_ns),
            final(self).latency@.len() <= LATENCY_WINDOW,
            final(self).smoothed == old(self).smoothed,
            final(self).settings == old(self).settings,
            final(self).memory == old(self).memory,
            final(self).endpoint == old(self).endpoint,
            final(self).frames == old(self).frames,
            final(self).raw == old(self).raw,
            final(self).packet_count == old(self).packet_count,
            final(self).force_update == old(self).force_update,
            final(self).last_update == old(self).last_update,
    {
        self.latency.record(latency_ns);
    }

    /// Moves the time of the last evaluation on to `now`, the moment its
    /// results were shown, so that the pace counts from there.
    pub fn finish_tick(&mut self, now: u64)
        ensures
            *final(self) == old(self).finished(now),
            final(self).last_update == if now > old(self).last_update {
                now
            } else {
                old(self).last_update
            },
            final(self).smoothed == old(self).smoothed,
            final(self).settings == old(self).settings,
            final(self).memory == old(self).memory,
            final(self).endpoint == old(self).endpoint,
            final(self).latency == old(self).latency,
            final(self).frames == old(self).frames,
            final(self).raw == old(self).raw,
            final(self).packet_count == old(self).packet_count,
            final(self).force_update == old(self).force_update,
    {
        if now > self.last_update {
            self.last_update = now;
        }
    }

    /// The running mean of the dispatch latencies, in nanoseconds.
    pub fn average_latency_ns(&self) -> (average: u64)
        ensures
            average == mean(self.latency@),
    {
        self.latency.average_ns()
    }
}

/// A packet that is evaluated leaves no settings change waiting and keeps
/// its arrival as the time of the last evaluation.
pub proof fn lemma_evaluation_resets_pace(state: ControlLoop, bytes: Seq<u8>, now: u64)
    requires
        state.outcome(bytes, now) is Evaluated,
    ensures
        !state.next(bytes, now).force_update,
        state.next(bytes, now).last_update == now,
{
}

/// While no settings change is waiting, packets that arrive before the
/// update interval has passed since time `since`, the last evaluation or
/// later, are not evaluated, however many they are and whenever a tick is
/// finished between them.
pub proof fn lemma_paced_packets_rest(state: ControlLoop, events: Seq<LoopEvent>, since: u64)
    requires
        !state.force_update,
        state.last_update >= since,
        forall|i: int|
            0 <= i < events.len() && (#[trigger] events[i]) is Packet ==> events[i].at() < since
                + UPDATE_INTERVAL_NS,
    ensures
        state.evaluations(events) == 0,
    decreases events.len(),
{
    if events.len() > 0 {
        let first = events[0];
        let rest = events.drop_first();
        assert forall|i: int| 0 <= i < rest.len() && (#[trigger] rest[i]) is Packet implies rest[i].at()
            < since + UPDATE_INTERVAL_NS by {
            assert(rest[i] == events[i + 1]);
        }
        lemma_paced_packets_rest(state.after(first), rest, since);
    }
}

/// Of the packets that arrive within one update interval, from time `start`
/// to less than `UPDATE_INTERVAL_NS` later, at most one is evaluated,
/// however many arrive, whatever they hold, and whenever a tick is finished
/// between them.
pub proof fn lemma_one_evaluation_per_window(
    state: ControlLoop,
    events: Seq<LoopEvent>,
    start: u64,
)
    requires
        forall|i: int|
            0 <= i < events.len() && (#[trigger] events[i]) is Packet ==> start <= events[i].at()
                < start + UPDATE_INTERVAL_NS,
    ensures
        state.evaluations(events) <= 1,
    decreases events.len(),
{
    if events.len() > 0 {
        let first = events[0];
        let rest = events.drop_first();
        assert forall|i: int| 0 <= i < rest.len() && (#[trigger] rest[i]) is Packet implies start
            <= rest[i].at() < start + UPDATE_INTERVAL_NS by {
            assert(rest[i] == events[i + 1]);
        }
        if state.evaluates(first) {
            lemma_paced_packets_rest(state.after(first), rest, start);
        } else {
            lemma_one_evaluation_per_window(state.after(first), rest, start);
        }
    }
}

} // verus!
