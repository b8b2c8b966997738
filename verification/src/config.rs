//! The configuration the animation starts with, from what the user asked
//! for by name.

use vstd::prelude::*;
use crate::grid::{Direction, State, StateView};
use crate::input::{palette_index, palette_index_of, speed_for_level, speed_of_level, DEFAULT_SPEED, PALETTE_LEN};
use crate::text::{lowercase, lowercase_of, str_eq};

verus! {

/// The direction that a name in lower case stands for. A name that is none
/// of `up`, `right` and `left` stands for down.
pub open spec fn direction_of_name(lower: Seq<char>) -> Direction {
    if lower == "up"@ {
        Direction::Up
    } else if lower == "right"@ {
        Direction::Right
    } else if lower == "left"@ {
        Direction::Left
    } else {
        Direction::Down
    }
}

/// The colour that a name in lower case selects: the name itself where the
/// palette holds it, else green.
pub open spec fn color_of_name(lower: Seq<char>) -> Seq<char> {
    if palette_index_of(lower) < PALETTE_LEN {
        lower
    } else {
        "green"@
    }
}

/// The configuration that the animation starts with: green, the default
/// speed and downwards, each unless something else is asked for. Names are
/// taken without regard to case.
pub open spec fn initial_view(
    color: Option<Seq<char>>,
    speed: Option<i8>,
    direction: Option<Seq<char>>,
    bold: bool,
) -> StateView {
    StateView {
        color: match color {
            Some(name) => color_of_name(lowercase_of(name)),
            None => "green"@,
        },
        speed: match speed {
            Some(level) => speed_of_level(level as int),
            None => DEFAULT_SPEED,
        },
        direction: match direction {
            Some(name) => direction_of_name(lowercase_of(name)),
            None => Direction::Down,
        },
        bold,
    }
}

/// The direction that a name in lower case stands for.
pub fn direction_named(lower: &str) -> (direction: Direction)
    ensures
        direction == direction_of_name(lower@),
{
    if str_eq(lower, "up") {
        Direction::Up
    } else if str_eq(lower, "right") {
        Direction::Right
    } else if str_eq(lower, "left") {
        Direction::Left
    } else {
        Direction::Down
    }
}

/// The colour that a name in lower case selects.
pub fn color_named(lower: &str) -> (color: String)
    ensures
        color@ == color_of_name(lower@),
{
    if palette_index(lower) < PALETTE_LEN {
        lower.to_owned()
    } else {
        "green".to_owned()
    }
}

/// The configuration that the animation starts with.
pub fn initial_state(color: Option<&str>, speed: Option<i8>, direction: Option<&str>, bold: bool) -> (state:
    State)
    ensures
        state@ == initial_view(
            match color {
                Some(name) => Some(name@),
                None => None,
            },
            speed,
            match direction {
                Some(name) => Some(name@),
                None => None,
            },
            bold,
        ),
{
    let color = match color {
        Some(name) => color_named(lowercase(name).as_str()),
        None => "green".to_owned(),
    };
    let speed = match speed {
        Some(level) => speed_for_level(level),
        None => DEFAULT_SPEED,
    };
    let direction = match direction {
        Some(name) => direction_named(lowercase(name).as_str()),
        None => Direction::Down,
    };
    State { color, speed, direction, bold }
}

} // verus!
