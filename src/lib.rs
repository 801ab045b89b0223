//! Terminal text animation: timelines, easing curves, effects and colour
//! composition over block-letter ASCII art.
use vstd::prelude::*;

pub mod animation;
pub mod color;
pub mod error;
pub mod figlet;
pub mod parser;
pub mod utils;
