use spatial_control::mode::SpeakerMode;
use spatial_control::settings::{apply_key_press, ControlSettings, Key, KeyAction, KeyPress};
use spatial_control::units::{
    DEFAULT_RADIUS, DEFAULT_WIDTH, MAX_RADIUS, MAX_WIDTH, MIN_RADIUS, MIN_WIDTH,
};

fn plain(key: Key) -> KeyPress {
    KeyPress { key, control: false }
}

fn with_control(key: Key) -> KeyPress {
    KeyPress { key, control: true }
}

#[test]
fn settings_start_at_the_defaults() {
    let settings = ControlSettings::new();
    assert_eq!(settings.radius(), DEFAULT_RADIUS);
    assert_eq!(settings.width(), DEFAULT_WIDTH);
    assert_eq!(settings.mode(), SpeakerMode::Front);
    assert!(!settings.reverb_enabled());
}

#[test]
fn settings_out_of_bounds_are_refused() {
    assert!(ControlSettings::with(MIN_RADIUS, MIN_WIDTH, SpeakerMode::Back, true).is_some());
    assert!(ControlSettings::with(MAX_RADIUS, MAX_WIDTH, SpeakerMode::Front, false).is_some());
    assert!(ControlSettings::with(MIN_RADIUS - 1, MIN_WIDTH, SpeakerMode::Back, true).is_none());
    assert!(ControlSettings::with(MAX_RADIUS + 1, MIN_WIDTH, SpeakerMode::Back, true).is_none());
    assert!(ControlSettings::with(MIN_RADIUS, MIN_WIDTH - 1, SpeakerMode::Back, true).is_none());
    assert!(ControlSettings::with(MIN_RADIUS, MAX_WIDTH + 1, SpeakerMode::Back, true).is_none());
    let settings = ControlSettings::with(2_000_000, 700_000, SpeakerMode::Back, true).unwrap();
    assert_eq!(settings.radius(), 2_000_000);
    assert_eq!(settings.width(), 700_000);
    assert_eq!(settings.mode(), SpeakerMode::Back);
    assert!(settings.reverb_enabled());
}

#[test]
fn quit_keys_quit() {
    for press in [
        plain(Key::Char('q')),
        plain(Key::Char('Q')),
        plain(Key::Esc),
        with_control(Key::Char('q')),
        with_control(Key::Esc),
        with_control(Key::Char('c')),
    ] {
        let mut settings = ControlSettings::new();
        assert_eq!(apply_key_press(press, &mut settings), KeyAction::Quit);
        assert_eq!(settings, ControlSettings::new());
    }
}

#[test]
fn c_alone_does_nothing() {
    let mut settings = ControlSettings::new();
    assert_eq!(apply_key_press(plain(Key::Char('c')), &mut settings), KeyAction::NoChange);
    assert_eq!(apply_key_press(with_control(Key::Char('C')), &mut settings), KeyAction::NoChange);
    assert_eq!(settings, ControlSettings::new());
}

#[test]
fn up_and_down_step_the_radius() {
    let mut settings = ControlSettings::new();
    assert_eq!(apply_key_press(plain(Key::Up), &mut settings), KeyAction::Changed);
    assert_eq!(settings.radius(), 1_600_000);
    assert_eq!(apply_key_press(plain(Key::Down), &mut settings), KeyAction::Changed);
    assert_eq!(apply_key_press(plain(Key::Down), &mut settings), KeyAction::Changed);
    assert_eq!(settings.radius(), 1_400_000);
    assert_eq!(settings.width(), DEFAULT_WIDTH);
}

#[test]
fn right_and_left_step_the_width() {
    let mut settings = ControlSettings::new();
    assert_eq!(apply_key_press(plain(Key::Right), &mut settings), KeyAction::Changed);
    assert_eq!(settings.width(), 1_100_000);
    assert_eq!(apply_key_press(plain(Key::Left), &mut settings), KeyAction::Changed);
    assert_eq!(apply_key_press(plain(Key::Left), &mut settings), KeyAction::Changed);
    assert_eq!(settings.width(), 900_000);
    assert_eq!(settings.radius(), DEFAULT_RADIUS);
}

#[test]
fn radius_cannot_leave_its_bounds() {
    let mut settings = ControlSettings::new();
    for _ in 0..200 {
        assert_eq!(apply_key_press(plain(Key::Up), &mut settings), KeyAction::Changed);
        assert!(MIN_RADIUS <= settings.radius() && settings.radius() <= MAX_RADIUS);
    }
    assert_eq!(settings.radius(), MAX_RADIUS);
    for _ in 0..200 {
        assert_eq!(apply_key_press(plain(Key::Down), &mut settings), KeyAction::Changed);
        assert!(MIN_RADIUS <= settings.radius() && settings.radius() <= MAX_RADIUS);
    }
    assert_eq!(settings.radius(), MIN_RADIUS);
    assert_eq!(apply_key_press(plain(Key::Up), &mut settings), KeyAction::Changed);
    assert_eq!(settings.radius(), 200_000);
}

#[test]
fn width_cannot_leave_its_bounds() {
    let mut settings = ControlSettings::new();
    for _ in 0..50 {
        assert_eq!(apply_key_press(plain(Key::Right), &mut settings), KeyAction::Changed);
        assert!(MIN_WIDTH <= settings.width() && settings.width() <= MAX_WIDTH);
    }
    assert_eq!(settings.width(), MAX_WIDTH);
    for _ in 0..50 {
        assert_eq!(apply_key_press(plain(Key::Left), &mut settings), KeyAction::Changed);
        assert!(MIN_WIDTH <= settings.width() && settings.width() <= MAX_WIDTH);
    }
    assert_eq!(settings.width(), MIN_WIDTH);
    assert_eq!(apply_key_press(plain(Key::Right), &mut settings), KeyAction::Changed);
    assert_eq!(settings.width(), 400_000);
}

#[test]
fn steps_from_between_the_grid_are_held_at_the_bounds() {
    let mut settings = ControlSettings::with(150_000, 1_450_000, SpeakerMode::Front, false).unwrap();
    apply_key_press(plain(Key::Down), &mut settings);
    assert_eq!(settings.radius(), MIN_RADIUS);
    apply_key_press(plain(Key::Right), &mut settings);
    assert_eq!(settings.width(), MAX_WIDTH);
    let mut settings = ControlSettings::with(9_950_000, 350_000, SpeakerMode::Front, false).unwrap();
    apply_key_press(plain(Key::Up), &mut settings);
    assert_eq!(settings.radius(), MAX_RADIUS);
    apply_key_press(plain(Key::Left), &mut settings);
    assert_eq!(settings.width(), MIN_WIDTH);
}

#[test]
fn mode_keys_report_a_change_only_when_the_mode_changes() {
    let mut settings = ControlSettings::new();
    assert_eq!(apply_key_press(plain(Key::Char('w')), &mut settings), KeyAction::NoChange);
    assert_eq!(apply_key_press(plain(Key::Char('W')), &mut settings), KeyAction::NoChange);
    assert_eq!(settings.mode(), SpeakerMode::Front);
    assert_eq!(apply_key_press(plain(Key::Char('s')), &mut settings), KeyAction::Changed);
    assert_eq!(settings.mode(), SpeakerMode::Back);
    assert_eq!(apply_key_press(plain(Key::Char('S')), &mut settings), KeyAction::NoChange);
    assert_eq!(apply_key_press(plain(Key::Char('s')), &mut settings), KeyAction::NoChange);
    assert_eq!(apply_key_press(plain(Key::Char('W')), &mut settings), KeyAction::Changed);
    assert_eq!(settings.mode(), SpeakerMode::Front);
}

#[test]
fn reverb_key_always_reports_a_change() {
    let mut settings = ControlSettings::new();
    assert_eq!(apply_key_press(plain(Key::Char('r')), &mut settings), KeyAction::Changed);
    assert!(settings.reverb_enabled());
    assert_eq!(apply_key_press(plain(Key::Char('R')), &mut settings), KeyAction::Changed);
    assert!(!settings.reverb_enabled());
    assert_eq!(apply_key_press(with_control(Key::Char('r')), &mut settings), KeyAction::Changed);
    assert!(settings.reverb_enabled());
}

#[test]
fn other_keys_do_nothing() {
    for press in [
        plain(Key::Other),
        plain(Key::Char('x')),
        plain(Key::Char(' ')),
        plain(Key::Char('1')),
        with_control(Key::Other),
    ] {
        let mut settings = ControlSettings::new();
        assert_eq!(apply_key_press(press, &mut settings), KeyAction::NoChange);
        assert_eq!(settings, ControlSettings::new());
    }
}
