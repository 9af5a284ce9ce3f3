//! Overlaying color and style maps onto ASCII art.
//!
//! An art is a text. A map is a second text of the same shape, whose characters are codes:
//! each selects a foreground color, a background color or a text style for the character
//! of the art that stands in the same place. The library holds maps against the art
//! ([`layout`], [`mask`], [`policy`]), and renders the art under its maps for the terminal
//! or for a file of escape sequences ([`compose`], [`render`]). It also reads the command
//! line of the program built on it ([`cli`]).
//!
//! Painting for the terminal is left to the `colored` crate ([`paint`]); everything else
//! is proved against the contracts stated here.

pub mod cli;
pub mod codes;
pub mod compose;
pub mod diagnostic;
pub mod layout;
pub mod mask;
pub mod paint;
pub mod policy;
pub mod render;
pub mod text;
