use matrix_rain::config::{color_named, direction_named, initial_state};
use matrix_rain::grid::{Direction, State};
use matrix_rain::input::{
    cycle_color, handle_event, handle_key, handle_key_with, next_color, palette_index, palette_name,
    speed_for_key, speed_for_level, Action, Event, Key, DEFAULT_SPEED, PALETTE_LEN,
};

const NAMES: [&str; 7] = ["blue", "cyan", "red", "purple", "yellow", "green", "rainbow"];

fn state(color: &str, speed: u64, direction: Direction, bold: bool) -> State {
    State { color: color.to_string(), speed, direction, bold }
}

fn start() -> State {
    state("green", 60, Direction::Down, false)
}

#[test]
fn palette_names_and_indices() {
    assert_eq!(PALETTE_LEN, 7);
    for (i, name) in NAMES.iter().enumerate() {
        assert_eq!(palette_name(i), *name);
        assert_eq!(palette_index(name), i);
    }
    assert_eq!(palette_index("teal"), 7);
    assert_eq!(palette_index("Green"), 7);
    assert_eq!(palette_index(""), 7);
}

#[test]
fn next_color_skips_the_current_one() {
    let from_green: Vec<String> = (0..6).map(|pick| next_color("green", pick)).collect();
    assert_eq!(from_green, vec!["blue", "cyan", "red", "purple", "yellow", "rainbow"]);
    let from_blue: Vec<String> = (0..6).map(|pick| next_color("blue", pick)).collect();
    assert_eq!(from_blue, vec!["cyan", "red", "purple", "yellow", "green", "rainbow"]);
    let from_rainbow: Vec<String> = (0..6).map(|pick| next_color("rainbow", pick)).collect();
    assert_eq!(from_rainbow, vec!["blue", "cyan", "red", "purple", "yellow", "green"]);
    let from_unknown: Vec<String> = (0..7).map(|pick| next_color("teal", pick)).collect();
    assert_eq!(from_unknown, NAMES.to_vec());
}

#[test]
fn cycling_from_green_never_gives_green() {
    let mut seen = Vec::new();
    for _ in 0..500 {
        let mut s = start();
        cycle_color(&mut s);
        assert_ne!(s.color, "green");
        assert!(NAMES.contains(&s.color.as_str()));
        assert_eq!(s.speed, 60);
        assert_eq!(s.direction, Direction::Down);
        assert!(!s.bold);
        if !seen.contains(&s.color) {
            seen.push(s.color);
        }
    }
    assert!(seen.len() > 1);
}

#[test]
fn cycling_never_keeps_the_current_color() {
    let mut s = start();
    for _ in 0..500 {
        let before = s.color.clone();
        assert_eq!(handle_key(&mut s, Key::Char('c')), Action::Continue);
        assert_ne!(s.color, before);
        assert!(NAMES.contains(&s.color.as_str()));
    }
}

#[test]
fn speed_key_sets_the_interval() {
    for prior in [5u64, 60, 120, 999] {
        let mut s = state("green", prior, Direction::Down, false);
        assert_eq!(handle_key(&mut s, Key::Char('5')), Action::Continue);
        assert_eq!(s.speed, 50);
        assert_eq!(handle_key(&mut s, Key::Char('0')), Action::Continue);
        assert_eq!(s.speed, 5);
    }
}

#[test]
fn speed_tables() {
    let by_key = [5u64, 120, 100, 80, 60, 50, 40, 30, 20, 10];
    for (digit, speed) in by_key.iter().enumerate() {
        let key = char::from_digit(digit as u32, 10).unwrap();
        assert_eq!(speed_for_key(key), Some(*speed));
    }
    assert_eq!(speed_for_key('a'), None);
    assert_eq!(speed_for_key('/'), None);
    assert_eq!(speed_for_key(':'), None);
    let by_level = [120u64, 100, 80, 60, 50, 40, 30, 20, 10, 5];
    for (i, speed) in by_level.iter().enumerate() {
        assert_eq!(speed_for_level(i as i8 + 1), *speed);
    }
    assert_eq!(speed_for_level(0), DEFAULT_SPEED);
    assert_eq!(speed_for_level(11), 60);
    assert_eq!(speed_for_level(-3), 60);
    assert_eq!(speed_for_level(i8::MAX), 60);
    assert_eq!(speed_for_level(i8::MIN), 60);
}

#[test]
fn same_direction_does_not_rebuild() {
    let mut s = state("green", 60, Direction::Up, false);
    assert_eq!(handle_key(&mut s, Key::Up), Action::Continue);
    assert_eq!(s, state("green", 60, Direction::Up, false));
    let keys = [
        (Key::Down, Direction::Down),
        (Key::Left, Direction::Left),
        (Key::Right, Direction::Right),
        (Key::Up, Direction::Up),
    ];
    for (key, direction) in keys {
        let mut s = state("green", 60, direction, true);
        assert_eq!(handle_key(&mut s, key), Action::Continue);
        assert_eq!(s, state("green", 60, direction, true));
    }
}

#[test]
fn new_direction_rebuilds() {
    let mut s = state("green", 60, Direction::Up, false);
    assert_eq!(handle_key(&mut s, Key::Left), Action::Rebuild);
    assert_eq!(s.direction, Direction::Left);
    assert_eq!(handle_key(&mut s, Key::Down), Action::Rebuild);
    assert_eq!(s.direction, Direction::Down);
    assert_eq!(handle_key(&mut s, Key::Right), Action::Rebuild);
    assert_eq!(s.direction, Direction::Right);
    assert_eq!(handle_key(&mut s, Key::Up), Action::Rebuild);
    assert_eq!(s, state("green", 60, Direction::Up, false));
}

#[test]
fn quit_bold_and_other_keys() {
    let mut s = start();
    assert_eq!(handle_key(&mut s, Key::Char('q')), Action::Quit);
    assert_eq!(s, start());
    assert_eq!(handle_key(&mut s, Key::Char('b')), Action::Continue);
    assert!(s.bold);
    assert_eq!(handle_key(&mut s, Key::Char('b')), Action::Continue);
    assert_eq!(s, start());
    assert_eq!(handle_key(&mut s, Key::Char('x')), Action::Continue);
    assert_eq!(handle_key(&mut s, Key::Other), Action::Continue);
    assert_eq!(s, start());
}

#[test]
fn key_with_given_draw() {
    let mut s = start();
    assert_eq!(handle_key_with(&mut s, Key::Char('c'), 5), Action::Continue);
    assert_eq!(s, state("rainbow", 60, Direction::Down, false));
    assert_eq!(handle_key_with(&mut s, Key::Char('c'), 5), Action::Continue);
    assert_eq!(s.color, "green");
    assert_eq!(handle_key_with(&mut s, Key::Char('c'), 0), Action::Continue);
    assert_eq!(s.color, "blue");
    assert_eq!(handle_key_with(&mut s, Key::Char('7'), 0), Action::Continue);
    assert_eq!(s.speed, 30);
    assert_eq!(handle_key_with(&mut s, Key::Up, 0), Action::Rebuild);
    assert_eq!(s, state("blue", 30, Direction::Up, false));
}

#[test]
fn direction_names() {
    assert_eq!(direction_named("up"), Direction::Up);
    assert_eq!(direction_named("right"), Direction::Right);
    assert_eq!(direction_named("left"), Direction::Left);
    assert_eq!(direction_named("down"), Direction::Down);
    assert_eq!(direction_named("sideways"), Direction::Down);
    assert_eq!(direction_named(""), Direction::Down);
}

#[test]
fn color_names() {
    for name in NAMES {
        assert_eq!(color_named(name), name);
    }
    assert_eq!(color_named("teal"), "green");
    assert_eq!(color_named(""), "green");
}

#[test]
fn initial_state_defaults() {
    assert_eq!(initial_state(None, None, None, false), state("green", 60, Direction::Down, false));
    assert_eq!(initial_state(None, None, None, true), state("green", 60, Direction::Down, true));
}

#[test]
fn initial_state_from_names() {
    assert_eq!(
        initial_state(Some("blue"), Some(1), Some("up"), false),
        state("blue", 120, Direction::Up, false)
    );
    assert_eq!(
        initial_state(Some("rainbow"), Some(10), Some("left"), true),
        state("rainbow", 5, Direction::Left, true)
    );
    assert_eq!(
        initial_state(Some("teal"), Some(0), Some("north"), false),
        state("green", 60, Direction::Down, false)
    );
}

#[test]
fn initial_state_ignores_case() {
    assert_eq!(
        initial_state(Some("BLUE"), Some(5), Some("Right"), false),
        state("blue", 50, Direction::Right, false)
    );
    assert_eq!(
        initial_state(Some("PuRpLe"), None, Some("UP"), false),
        state("purple", 60, Direction::Up, false)
    );
}

#[test]
fn resize_rebuilds_and_keeps_the_configuration() {
    let mut s = state("cyan", 40, Direction::Left, true);
    assert_eq!(handle_event(&mut s, Event::Resize), Action::Rebuild);
    assert_eq!(s, state("cyan", 40, Direction::Left, true));
    assert_eq!(handle_event(&mut s, Event::Other), Action::Continue);
    assert_eq!(s, state("cyan", 40, Direction::Left, true));
}

#[test]
fn key_press_event_acts_as_the_key() {
    let mut s = state("cyan", 40, Direction::Left, true);
    assert_eq!(handle_event(&mut s, Event::Press(Key::Left)), Action::Continue);
    assert_eq!(s, state("cyan", 40, Direction::Left, true));
    assert_eq!(handle_event(&mut s, Event::Press(Key::Up)), Action::Rebuild);
    assert_eq!(s, state("cyan", 40, Direction::Up, true));
    assert_eq!(handle_event(&mut s, Event::Press(Key::Char('3'))), Action::Continue);
    assert_eq!(s.speed, 80);
    assert_eq!(handle_event(&mut s, Event::Press(Key::Char('c'))), Action::Continue);
    assert_ne!(s.color, "cyan");
    assert_eq!(handle_event(&mut s, Event::Press(Key::Char('q'))), Action::Quit);
}
