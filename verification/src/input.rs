//! What a key does to the configuration, and the tables behind it: the
//! colours that can be cycled through and the tick interval of each speed
//! level.

use vstd::prelude::*;
use crate::grid::{Direction, State, StateView};
use crate::text::str_eq;
use crate::sampler::random_in;

verus! {

/// Number of colour names that can be chosen.
pub const PALETTE_LEN: usize = 7;

/// Milliseconds between two ticks where no speed level is chosen.
pub const DEFAULT_SPEED: u64 = 60;

/// The colour names that can be chosen, in the order they are cycled from.
pub open spec fn palette() -> Seq<Seq<char>> {
    seq!["blue"@, "cyan"@, "red"@, "purple"@, "yellow"@, "green"@, "rainbow"@]
}

/// Where `name` stands in the palette, or [`PALETTE_LEN`] where it does not.
pub open spec fn palette_index_of(name: Seq<char>) -> int {
    if name == "blue"@ {
        0
    } else if name == "cyan"@ {
        1
    } else if name == "red"@ {
        2
    } else if name == "purple"@ {
        3
    } else if name == "yellow"@ {
        4
    } else if name == "green"@ {
        5
    } else if name == "rainbow"@ {
        6
    } else {
        7
    }
}

/// The palette without `current`, in palette order: what a colour change
/// chooses from.
pub open spec fn other_colors(current: Seq<char>) -> Seq<Seq<char>> {
    if palette_index_of(current) < PALETTE_LEN {
        palette().remove(palette_index_of(current))
    } else {
        palette()
    }
}

/// The names of the palette differ from one another, and each stands at its
/// own index.
pub proof fn lemma_palette()
    ensures
        palette().len() == PALETTE_LEN,
        forall|i: int| 0 <= i < PALETTE_LEN ==> palette_index_of(#[trigger] palette()[i]) == i,
        forall|name: Seq<char>|
            0 <= #[trigger] palette_index_of(name) < PALETTE_LEN ==> palette()[palette_index_of(name)]
                == name,
{
    reveal_strlit("blue");
    reveal_strlit("cyan");
    reveal_strlit("red");
    reveal_strlit("purple");
    reveal_strlit("yellow");
    reveal_strlit("green");
    reveal_strlit("rainbow");
    assert("purple"@.len() == 6 && "yellow"@.len() == 6 && "green"@.len() == 5);
    assert("rainbow"@.len() == 7);
    assert("blue"@[0] == 'b' && "cyan"@[0] == 'c');
    assert("purple"@[0] == 'p' && "yellow"@[0] == 'y');
}

/// The colours left to choose from never hold the current one.
pub proof fn lemma_other_colors(current: Seq<char>)
    ensures
        other_colors(current).len() == if palette_index_of(current) < PALETTE_LEN {
            PALETTE_LEN - 1
        } else {
            PALETTE_LEN as int
        },
        forall|k: int| 0 <= k < other_colors(current).len() ==> #[trigger] other_colors(current)[k] != current,
        forall|k: int|
            0 <= k < other_colors(current).len() ==> 0 <= palette_index_of(
                #[trigger] other_colors(current)[k],
            ) < PALETTE_LEN,
{
    lemma_palette();
}

/// Where `name` stands in the palette, or [`PALETTE_LEN`] where it does not.
pub fn palette_index(name: &str) -> (at: usize)
    ensures
        at == palette_index_of(name@),
{
    if str_eq(name, "blue") {
        0
    } else if str_eq(name, "cyan") {
        1
    } else if str_eq(name, "red") {
        2
    } else if str_eq(name, "purple") {
        3
    } else if str_eq(name, "yellow") {
        4
    } else if str_eq(name, "green") {
        5
    } else if str_eq(name, "rainbow") {
        6
    } else {
        7
    }
}

/// The colour name at index `at` of the palette.
pub fn palette_name(at: usize) -> (name: String)
    requires
        at < PALETTE_LEN,
    ensures
        name@ == palette()[at as int],
{
    let name = match at {
        0 => "blue",
        1 => "cyan",
        2 => "red",
        3 => "purple",
        4 => "yellow",
        5 => "green",
        _ => "rainbow",
    };
    name.to_owned()
}

/// The colour that a colour change moves to from `current` when the draw is
/// `pick`: the `pick`-th name of the palette that is not `current`.
pub fn next_color(current: &str, pick: usize) -> (name: String)
    requires
        pick < other_colors(current@).len(),
    ensures
        name@ == other_colors(current@)[pick as int],
        name@ != current@,
{
    proof {
        lemma_palette();
        lemma_other_colors(current@);
    }
    let at = palette_index(current);
    let from = if at < PALETTE_LEN && pick >= at {
        pick + 1
    } else {
        pick
    };
    palette_name(from)
}

/// Milliseconds between two ticks at a speed level: from 120 at level 1 down
/// to 5 at level 10, and the default at any other level.
pub open spec fn speed_of_level(level: int) -> u64 {
    if level == 1 {
        120
    } else if level == 2 {
        100
    } else if level == 3 {
        80
    } else if level == 4 {
        60
    } else if level == 5 {
        50
    } else if level == 6 {
        40
    } else if level == 7 {
        30
    } else if level == 8 {
        20
    } else if level == 9 {
        10
    } else if level == 10 {
        5
    } else {
        DEFAULT_SPEED
    }
}

/// Milliseconds between two ticks that a key sets, if it sets any: the
/// digits `1` to `9` set their level's interval, and `0` the fastest.
pub open spec fn speed_of_key(c: char) -> Option<u64> {
    if c == '0' {
        Some(speed_of_level(10))
    } else if '1' <= c <= '9' {
        Some(speed_of_level(c as int - '0' as int))
    } else {
        None
    }
}

/// Milliseconds between two ticks at a speed level.
pub fn speed_for_level(level: i8) -> (speed: u64)
    ensures
        speed == speed_of_level(level as int),
{
    match level {
        1 => 120,
        2 => 100,
        3 => 80,
        4 => 60,
        5 => 50,
        6 => 40,
        7 => 30,
        8 => 20,
        9 => 10,
        10 => 5,
        _ => DEFAULT_SPEED,
    }
}

/// Milliseconds between two ticks that a key sets, if it sets any.
pub fn speed_for_key(c: char) -> (speed: Option<u64>)
    ensures
        speed == speed_of_key(c),
{
    match c {
        '1' => Some(120),
        '2' => Some(100),
        '3' => Some(80),
        '4' => Some(60),
        '5' => Some(50),
        '6' => Some(40),
        '7' => Some(30),
        '8' => Some(20),
        '9' => Some(10),
        '0' => Some(5),
        _ => None,
    }
}

/// A key press.
#[derive(Clone, Copy, Debug, PartialEq, Eq, Structural)]
pub enum Key {
    Char(char),
    Up,
    Down,
    Left,
    Right,
    Other,
}

/// What the animation loop does after a key press.
#[derive(Clone, Copy, Debug, PartialEq, Eq, Structural)]
pub enum Action {
    /// Go on with the next tick.
    Continue,
    /// Leave the loop.
    Quit,
    /// Build the grid anew, then go on.
    Rebuild,
}

/// The direction that a key asks for, if it asks for one.
pub open spec fn direction_of_key(key: Key) -> Option<Direction> {
    match key {
        Key::Up => Some(Direction::Up),
        Key::Down => Some(Direction::Down),
        Key::Left => Some(Direction::Left),
        Key::Right => Some(Direction::Right),
        _ => None,
    }
}

/// The configuration after a key press, and what the loop does next. `q`
/// quits, `b` toggles bold, `c` moves to the colour that `pick` draws from
/// the palette without the current one, and a digit sets the tick interval.
/// A direction key changes the direction and has the grid rebuilt, but only
/// where the direction asked for differs from the current one. Any other key
/// does nothing.
pub open spec fn key_effect(s: StateView, key: Key, pick: int) -> (StateView, Action) {
    match key {
        Key::Char(c) => if c == 'q' {
            (s, Action::Quit)
        } else if c == 'b' {
            (StateView { bold: !s.bold, ..s }, Action::Continue)
        } else if c == 'c' {
            (StateView { color: other_colors(s.color)[pick], ..s }, Action::Continue)
        } else {
            match speed_of_key(c) {
                Some(speed) => (StateView { speed, ..s }, Action::Continue),
                None => (s, Action::Continue),
            }
        },
        Key::Other => (s, Action::Continue),
        _ => if direction_of_key(key) == Some(s.direction) {
            (s, Action::Continue)
        } else {
            (StateView { direction: direction_of_key(key)->0, ..s }, Action::Rebuild)
        },
    }
}

/// Sets the direction, and says whether it changed.
fn turn(state: &mut State, direction: Direction) -> (action: Action)
    ensures
        final(state)@ == (StateView { direction, ..old(state)@ }),
        action == if old(state).direction == direction {
            Action::Continue
        } else {
            Action::Rebuild
        },
{
    if state.direction == direction {
        Action::Continue
    } else {
        state.direction = direction;
        Action::Rebuild
    }
}

/// Applies a key press to the configuration, with the colour draw given.
pub fn handle_key_with(state: &mut State, key: Key, pick: usize) -> (action: Action)
    requires
        key == Key::Char('c') ==> pick < other_colors(old(state).color@).len(),
    ensures
        (final(state)@, action) == key_effect(old(state)@, key, pick as int),
{
    match key {
        Key::Char(c) => {
            if c == 'q' {
                return Action::Quit;
            } else if c == 'b' {
                state.bold = !state.bold;
            } else if c == 'c' {
                state.color = next_color(state.color.as_str(), pick);
            } else {
                match speed_for_key(c) {
                    Some(speed) => {
                        state.speed = speed;
                    },
                    None => {},
                }
            }
            Action::Continue
        },
        Key::Up => turn(state, Direction::Up),
        Key::Down => turn(state, Direction::Down),
        Key::Left => turn(state, Direction::Left),
        Key::Right => turn(state, Direction::Right),
        Key::Other => Action::Continue,
    }
}

/// `after` and `action` are what a key press makes of `before` for some
/// outcome of the colour draw.
pub open spec fn is_key_effect(before: StateView, key: Key, after: StateView, action: Action) -> bool {
    exists|pick: int|
        0 <= pick < other_colors(before.color).len() && (after, action) == #[trigger] key_effect(
            before,
            key,
            pick,
        )
}

/// Moves to another colour of the palette, drawn at random from all but the
/// current one.
pub fn cycle_color(state: &mut State)
    ensures
        final(state).color@ != old(state).color@,
        other_colors(old(state).color@).contains(final(state).color@),
        final(state)@ == (StateView { color: final(state).color@, ..old(state)@ }),
        is_key_effect(old(state)@, Key::Char('c'), final(state)@, Action::Continue),
{
    proof {
        lemma_other_colors(state.color@);
    }
    let others = if palette_index(state.color.as_str()) < PALETTE_LEN {
        PALETTE_LEN - 1
    } else {
        PALETTE_LEN
    };
    let pick = random_in(0, others);
    handle_key_with(state, Key::Char('c'), pick);
}

/// Applies a key press to the configuration. A colour change draws the new
/// colour at random; everything else is fixed by the key.
pub fn handle_key(state: &mut State, key: Key) -> (action: Action)
    ensures
        is_key_effect(old(state)@, key, final(state)@, action),
        key == Key::Char('c') ==> final(state).color@ != old(state).color@,
        direction_of_key(key) == Some(old(state).direction) ==> final(state)@ == old(state)@ && action
            == Action::Continue,
{
    proof {
        lemma_other_colors(state.color@);
    }
    match key {
        Key::Char('c') => {
            cycle_color(state);
            Action::Continue
        },
        _ => handle_key_with(state, key, 0),
    }
}

/// What the animation loop is told between two ticks.
#[derive(Clone, Copy, Debug, PartialEq, Eq, Structural)]
pub enum Event {
    /// The display changed its size.
    Resize,
    /// A key was pressed.
    Press(Key),
    /// Anything else.
    Other,
}

/// Applies an event to the configuration and says what the loop does next:
/// a resize has the grid rebuilt and leaves the configuration alone, a key
/// press does what [`handle_key`] does, and anything else does nothing.
pub fn handle_event(state: &mut State, event: Event) -> (action: Action)
    ensures
        match event {
            Event::Resize => final(state)@ == old(state)@ && action == Action::Rebuild,
            Event::Press(key) => is_key_effect(old(state)@, key, final(state)@, action),
            Event::Other => final(state)@ == old(state)@ && action == Action::Continue,
        },
        event == Event::Press(Key::Char('c')) ==> final(state).color@ != old(state).color@,
        event matches Event::Press(key) && direction_of_key(key) == Some(old(state).direction)
            ==> final(state)@ == old(state)@ && action == Action::Continue,
{
    match event {
        Event::Resize => Action::Rebuild,
        Event::Press(key) => handle_key(state, key),
        Event::Other => Action::Continue,
    }
}

} // verus!
