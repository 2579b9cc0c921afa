//! The operator's settings and the keys that change them.

use crate::mode::SpeakerMode;
use crate::units::{
    DEFAULT_RADIUS, DEFAULT_WIDTH, MAX_RADIUS, MAX_WIDTH, MIN_RADIUS, MIN_WIDTH, RADIUS_STEP,
    WIDTH_STEP,
};
use crossterm::event::{KeyCode, KeyEvent, KeyModifiers};
use vstd::prelude::*;

verus! {

#[verifier::external_type_specification]
#[verifier::external_body]
pub struct ExKeyEvent(crossterm::event::KeyEvent);

/// A key of the keyboard, as far as the controller tells keys apart.
#[derive(Clone, Copy, Debug, PartialEq, Eq)]
pub enum Key {
    Char(char),
    Esc,
    Up,
    Down,
    Left,
    Right,
    Other,
}

/// One key press: the key, and whether the control modifier was held.
#[derive(Clone, Copy, Debug, PartialEq, Eq)]
pub struct KeyPress {
    pub key: Key,
    pub control: bool,
}

/// What a key press asks of the control loop.
#[derive(Clone, Copy, Debug, PartialEq, Eq, Structural)]
pub enum KeyAction {
    /// Leave the loop.
    Quit,
    /// A setting was touched: the next evaluation is dispatched.
    Changed,
    /// Nothing to do.
    NoChange,
}

/// The settings as plain numbers.
pub struct SettingsModel {
    pub radius: int,
    pub width: int,
    pub mode: SpeakerMode,
    pub reverb_enabled: bool,
}

/// The larger of two numbers.
pub open spec fn at_least(value: int, floor: int) -> int {
    if value < floor {
        floor
    } else {
        value
    }
}

/// The smaller of two numbers.
pub open spec fn at_most(value: int, ceiling: int) -> int {
    if value > ceiling {
        ceiling
    } else {
        value
    }
}

impl SettingsModel {
    /// The settings at start-up.
    pub open spec fn initial() -> SettingsModel {
        SettingsModel {
            radius: DEFAULT_RADIUS as int,
            width: DEFAULT_WIDTH as int,
            mode: SpeakerMode::Front,
            reverb_enabled: false,
        }
    }

    /// Distance and width lie within their bounds.
    pub open spec fn valid(self) -> bool {
        &&& MIN_RADIUS <= self.radius <= MAX_RADIUS
        &&& MIN_WIDTH <= self.width <= MAX_WIDTH
    }

    /// Whether a key press leaves the loop: `q`, `Q`, escape, or `c` with the
    /// control modifier.
    pub open spec fn quits(press: KeyPress) -> bool {
        ||| press.key == Key::Char('q')
        ||| press.key == Key::Char('Q')
        ||| press.key == Key::Esc
        ||| (press.key == Key::Char('c') && press.control)
    }

    /// The settings after a key press. The arrow keys step distance (up,
    /// down) and width (right, left) and hold them at their bounds; `w` and
    /// `s` choose the front and the back speakers; `r` switches the reverb.
    pub open spec fn after(self, press: KeyPress) -> SettingsModel {
        if Self::quits(press) {
            self
        } else {
            match press.key {
                Key::Up => SettingsModel {
                    radius: at_most(self.radius + RADIUS_STEP, MAX_RADIUS as int),
                    ..self
                },
                Key::Down => SettingsModel {
                    radius: at_least(self.radius - RADIUS_STEP, MIN_RADIUS as int),
                    ..self
                },
                Key::Right => SettingsModel {
                    width: at_most(self.width + WIDTH_STEP, MAX_WIDTH as int),
                    ..self
                },
                Key::Left => SettingsModel {
                    width: at_least(self.width - WIDTH_STEP, MIN_WIDTH as int),
                    ..self
                },
                Key::Char(c) => if c == 'w' || c == 'W' {
                    SettingsModel { mode: SpeakerMode::Front, ..self }
                } else if c == 's' || c == 'S' {
                    SettingsModel { mode: SpeakerMode::Back, ..self }
                } else if c == 'r' || c == 'R' {
                    SettingsModel { reverb_enabled: !self.reverb_enabled, ..self }
                } else {
                    self
                },
                _ => self,
            }
        }
    }

    /// What a key press reports. An arrow key and the reverb key always
    /// report a change; a mode key reports one only if the mode was another.
    pub open spec fn action(self, press: KeyPress) -> KeyAction {
        if Self::quits(press) {
            KeyAction::Quit
        } else {
            match press.key {
                Key::Up | Key::Down | Key::Right | Key::Left => KeyAction::Changed,
                Key::Char(c) => if c == 'w' || c == 'W' {
                    if self.mode == SpeakerMode::Front {
                        KeyAction::NoChange
                    } else {
                        KeyAction::Changed
                    }
                } else if c == 's' || c == 'S' {
                    if self.mode == SpeakerMode::Back {
                        KeyAction::NoChange
                    } else {
                        KeyAction::Changed
                    }
                } else if c == 'r' || c == 'R' {
                    KeyAction::Changed
                } else {
                    KeyAction::NoChange
                },
                _ => KeyAction::NoChange,
            }
        }
    }

    /// The settings after a run of key presses.
    pub open spec fn after_all(self, presses: Seq<KeyPress>) -> SettingsModel
        decreases presses.len(),
    {
        if presses.len() == 0 {
            self
        } else {
            self.after(presses[0]).after_all(presses.drop_first())
        }
    }
}

/// No key press takes valid settings out of their bounds.
pub proof fn lemma_key_keeps_bounds(settings: SettingsModel, press: KeyPress)
    requires
        settings.valid(),
    ensures
        settings.after(press).valid(),
{
}

/// No run of key presses, however long, takes the distance or the width out
/// of its bounds.
pub proof fn lemma_keys_keep_bounds(settings: SettingsModel, presses: Seq<KeyPress>)
    requires
        settings.valid(),
    ensures
        settings.after_all(presses).valid(),
    decreases presses.len(),
{
    if presses.len() > 0 {
        lemma_key_keeps_bounds(settings, presses[0]);
        lemma_keys_keep_bounds(settings.after(presses[0]), presses.drop_first());
    }
}

/// A key press that reports no change changes nothing, and so does one that
/// quits.
pub proof fn lemma_quiet_keys_change_nothing(settings: SettingsModel, press: KeyPress)
    ensures
        settings.action(press) != KeyAction::Changed ==> settings.after(press) == settings,
{
}

/// Distance, stereo width, speaker layout and reverb switch, the first two
/// always within their bounds.
#[derive(Clone, Copy, Debug, PartialEq, Eq)]
pub struct ControlSettings {
    radius: u64,
    width: u64,
    mode: SpeakerMode,
    reverb_enabled: bool,
}

impl View for ControlSettings {
    type V = SettingsModel;

    closed spec fn view(&self) -> SettingsModel {
        SettingsModel {
            radius: self.radius as int,
            width: self.width as int,
            mode: self.mode,
            reverb_enabled: self.reverb_enabled,
        }
    }
}

impl ControlSettings {
    #[verifier::type_invariant]
    closed spec fn in_bounds(self) -> bool {
        self@.valid()
    }

    /// The settings at start-up.
    pub fn new() -> (settings: Self)
        ensures
            settings@ == SettingsModel::initial(),
            settings@.valid(),
    {
        ControlSettings {
            radius: DEFAULT_RADIUS,
            width: DEFAULT_WIDTH,
            mode: SpeakerMode::Front,
            reverb_enabled: false,
        }
    }

    /// Settings with the given values, if distance and width are within
    /// their bounds.
    pub fn with(radius: u64, width: u64, mode: SpeakerMode, reverb_enabled: bool) -> (settings:
        Option<Self>)
        ensures
            settings is Some <==> (SettingsModel {
                radius: radius as int,
                width: width as int,
                mode,
                reverb_enabled,
            }).valid(),
            settings matches Some(s) ==> s@ == (SettingsModel {
                radius: radius as int,
                width: width as int,
                mode,
                reverb_enabled,
            }),
    {
        if MIN_RADIUS <= radius && radius <= MAX_RADIUS && MIN_WIDTH <= width && width
            <= MAX_WIDTH {
            Some(ControlSettings { radius, width, mode, reverb_enabled })
        } else {
            None
        }
    }

    /// The listening distance.
    pub fn radius(&self) -> (radius: u64)
        ensures
            radius == self@.radius,
            MIN_RADIUS <= radius <= MAX_RADIUS,
    {
        proof {
            use_type_invariant(self);
        }
        self.radius
    }

    /// The stereo width.
    pub fn width(&self) -> (width: u64)
        ensures
            width == self@.width,
            MIN_WIDTH <= width <= MAX_WIDTH,
    {
        proof {
            use_type_invariant(self);
        }
        self.width
    }

    /// The speaker layout.
    pub fn mode(&self) -> (mode: SpeakerMode)
        ensures
            mode == self@.mode,
    {
        self.mode
    }

    /// Whether reverb is on.
    pub fn reverb_enabled(&self) -> (enabled: bool)
        ensures
            enabled == self@.reverb_enabled,
    {
        self.reverb_enabled
    }
}

/// Whether a key press leaves the loop.
fn is_quit(press: KeyPress) -> (quit: bool)
    ensures
        quit == SettingsModel::quits(press),
{
    match press.key {
        Key::Esc => true,
        Key::Char(c) => c == 'q' || c == 'Q' || (c == 'c' && press.control),
        _ => false,
    }
}

/// The key press that a key event of `crossterm` holds: its key code, told
/// apart as far as `Key` tells keys apart, and whether the control modifier
/// is among its modifiers.
pub uninterp spec fn key_press_in(event: KeyEvent) -> KeyPress;

/// Reads a key event of `crossterm`: the field `code`, one variant of `Key`
/// for each key code that the controller tells apart and `Key::Other` for
/// the rest, and what `KeyModifiers::contains` says of the control modifier
/// in the field `modifiers`. The result depends on the event alone and is
/// named `key_press_in`; no more is claimed of it.
#[verifier::external_body]
fn key_press_of(event: &KeyEvent) -> (press: KeyPress)
    ensures
        press == key_press_in(*event),
{
    let key = match event.code {
        KeyCode::Char(c) => Key::Char(c),
        KeyCode::Esc => Key::Esc,
        KeyCode::Up => Key::Up,
        KeyCode::Down => Key::Down,
        KeyCode::Left => Key::Left,
        KeyCode::Right => Key::Right,
        _ => Key::Other,
    };
    KeyPress { key, control: event.modifiers.contains(KeyModifiers::CONTROL) }
}

/// Applies one key event of the terminal to the settings and says what it
/// asks of the loop: what `apply_key_press` does with the key press that the
/// event holds.
pub fn handle_key_event(key: KeyEvent, settings: &mut ControlSettings) -> (action: KeyAction)
    ensures
        action == old(settings)@.action(key_press_in(key)),
        final(settings)@ == old(settings)@.after(key_press_in(key)),
        final(settings)@.valid(),
{
    let press = key_press_of(&key);
    apply_key_press(press, settings)
}

/// Applies one key press to the settings and says what it asks of the loop.
pub fn apply_key_press(press: KeyPress, settings: &mut ControlSettings) -> (action: KeyAction)
    ensures
        action == old(settings)@.action(press),
        final(settings)@ == old(settings)@.after(press),
        final(settings)@.valid(),
{
    proof {
        use_type_invariant(&*settings);
    }
    if is_quit(press) {
        return KeyAction::Quit;
    }
    match press.key {
        Key::Up => {
            let raised: u64 = settings.radius + RADIUS_STEP;
            settings.radius = if raised > MAX_RADIUS {
                MAX_RADIUS
            } else {
                raised
            };
            KeyAction::Changed
        },
        Key::Down => {
            settings.radius = if settings.radius < MIN_RADIUS + RADIUS_STEP {
                MIN_RADIUS
            } else {
                settings.radius - RADIUS_STEP
            };
            KeyAction::Changed
        },
        Key::Right => {
            let widened: u64 = settings.width + WIDTH_STEP;
            settings.width = if widened > MAX_WIDTH {
                MAX_WIDTH
            } else {
                widened
            };
            KeyAction::Changed
        },
        Key::Left => {
            settings.width = if settings.width < MIN_WIDTH + WIDTH_STEP {
                MIN_WIDTH
            } else {
                settings.width - WIDTH_STEP
            };
            KeyAction::Changed
        },
        Key::Char(c) => {
            if c == 'w' || c == 'W' {
                if settings.mode == SpeakerMode::Front {
                    KeyAction::NoChange
                } else {
                    settings.mode = SpeakerMode::Front;
                    KeyAction::Changed
                }
            } else if c == 's' || c == 'S' {
                if settings.mode == SpeakerMode::Back {
                    KeyAction::NoChange
                } else {
                    settings.mode = SpeakerMode::Back;
                    KeyAction::Changed
                }
            } else if c == 'r' || c == 'R' {
                settings.reverb_enabled = !settings.reverb_enabled;
                KeyAction::Changed
            } else {
                KeyAction::NoChange
            }
        },
        _ => KeyAction::NoChange,
    }
}

} // verus!
