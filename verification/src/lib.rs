//! Digital rain in a character grid: streams of glyphs that fall along the
//! lines of a grid and fade behind a bright head.
//!
//! - [`cell`]: what one grid position holds.
//! - [`line`]: one line of cells and the two-phase stream that runs along
//!   it, advanced by one pass per tick.
//! - [`laws`]: what holds of a line over its ticks.
//! - [`grid`]: the lines that fill a display, built and rebuilt for its size
//!   and for the direction of the rain.
//! - [`render`]: the styled cells that a line is drawn as, and the frame of
//!   lines that the grid is drawn as.
//! - [`input`]: what keys and other events do to the configuration.
//! - [`config`]: the configuration the animation starts with.
//! - [`sampler`]: the random draws.
//! - [`text`]: comparing strings and putting them in lower case.
//!
//! Two things are taken on trust: what the random generator hands back, in
//! [`sampler`], and what the standard library makes of a string when it puts
//! it in lower case, in [`text`]. Every function that draws at random has a
//! companion that takes the draws as arguments and says exactly what it
//! makes of them.

pub mod cell;
pub mod config;
pub mod grid;
pub mod input;
pub mod laws;
pub mod line;
pub mod render;
pub mod sampler;
pub mod text;
