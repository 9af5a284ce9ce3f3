//! Painting text for the terminal, through the `colored` crate.
//!
//! `colored` decides on its own whether escape codes are wanted: it looks at the
//! environment, at whether standard output is a terminal, and at an override that a
//! program can set. Where it decides against them the text comes back untouched.
//! Otherwise the text comes back between the sequence that switches the attribute on and
//! the one that resets every attribute; and since a reset sequence inside the text would
//! switch the attribute off too early, the switching sequence is repeated after each.

use colored::Colorize;
use vstd::prelude::*;

use crate::codes::{background_number, foreground_number, style_number, Color, Style};
use crate::text::decimal;

verus! {

/// The sequence that resets every attribute.
pub open spec fn reset() -> Seq<char> {
    seq!['\u{1b}', '[', '0', 'm']
}

/// The sequence that switches on the attribute of the given number.
pub open spec fn switch_on(number: nat) -> Seq<char> {
    seq!['\u{1b}', '['] + decimal(number) + seq!['m']
}

/// `text` with `opening` put after every reset sequence that stands in it.
pub open spec fn reopened(text: Seq<char>, opening: Seq<char>) -> Seq<char>
    decreases text.len(),
{
    if text.len() < 4 {
        text
    } else if text.take(4) == reset() {
        reset() + opening + reopened(text.skip(4), opening)
    } else {
        seq![text[0]] + reopened(text.skip(1), opening)
    }
}

/// `text` under the attribute of the given number, as the terminal gets it while coloring
/// is on: between the sequence that switches the attribute on and the one that resets,
/// with the attribute switched on again after every reset sequence inside.
pub open spec fn shown(text: Seq<char>, number: nat) -> Seq<char> {
    switch_on(number) + reopened(text, switch_on(number)) + reset()
}

/// `text` in the foreground color `color`, as the terminal gets it while coloring is on.
pub open spec fn foreground_shown(text: Seq<char>, color: Color) -> Seq<char> {
    shown(text, foreground_number(color))
}

/// `text` on the background color `color`, as the terminal gets it while coloring is on.
pub open spec fn background_shown(text: Seq<char>, color: Color) -> Seq<char> {
    shown(text, background_number(color))
}

/// `text` with the attribute `style`, as the terminal gets it while coloring is on.
pub open spec fn style_shown(text: Seq<char>, style: Style) -> Seq<char> {
    shown(text, style_number(style))
}

/// Calls `Colorize::color` on `text` and formats the result with its `Display`.
///
/// Not proved: that the outcome is `text` itself where `colored` has coloring switched
/// off, and [`foreground_shown`] of the text and the color where it is on: the text
/// between the sequence with the color's number and the reset sequence, with the
/// first of the two again after every reset sequence inside the text. The switch is
/// taken not to move while one text is being formatted.
#[verifier::external_body]
pub(crate) fn paint_foreground(text: &str, color: Color) -> (painted: String)
    ensures
        painted@ == text@ || painted@ == foreground_shown(text@, color),
{
    let color = match color {
        Color::Black => colored::Color::Black, Color::Red => colored::Color::Red,
        Color::Green => colored::Color::Green, Color::Yellow => colored::Color::Yellow,
        Color::Blue => colored::Color::Blue, Color::Purple => colored::Color::Magenta,
        Color::Cyan => colored::Color::Cyan, Color::White => colored::Color::White,
        Color::BrightBlack => colored::Color::BrightBlack,
        Color::BrightRed => colored::Color::BrightRed,
        Color::BrightGreen => colored::Color::BrightGreen,
        Color::BrightYellow => colored::Color::BrightYellow,
        Color::BrightBlue => colored::Color::BrightBlue,
        Color::BrightPurple => colored::Color::BrightMagenta,
        Color::BrightCyan => colored::Color::BrightCyan,
        Color::BrightWhite => colored::Color::BrightWhite,
    };
    text.color(color).to_string()
}

/// Calls `Colorize::on_color` on `text` and formats the result with its `Display`.
///
/// Not proved: that the outcome is `text` itself where `colored` has coloring switched
/// off, and [`background_shown`] of the text and the color where it is on: the text
/// between the sequence with the color's number and the reset sequence, with the
/// first of the two again after every reset sequence inside the text. The switch is
/// taken not to move while one text is being formatted.
#[verifier::external_body]
pub(crate) fn paint_background(text: &str, color: Color) -> (painted: String)
    ensures
        painted@ == text@ || painted@ == background_shown(text@, color),
{
    let color = match color {
        Color::Black => colored::Color::Black, Color::Red => colored::Color::Red,
        Color::Green => colored::Color::Green, Color::Yellow => colored::Color::Yellow,
        Color::Blue => colored::Color::Blue, Color::Purple => colored::Color::Magenta,
        Color::Cyan => colored::Color::Cyan, Color::White => colored::Color::White,
        Color::BrightBlack => colored::Color::BrightBlack,
        Color::BrightRed => colored::Color::BrightRed,
        Color::BrightGreen => colored::Color::BrightGreen,
        Color::BrightYellow => colored::Color::BrightYellow,
        Color::BrightBlue => colored::Color::BrightBlue,
        Color::BrightPurple => colored::Color::BrightMagenta,
        Color::BrightCyan => colored::Color::BrightCyan,
        Color::BrightWhite => colored::Color::BrightWhite,
    };
    text.on_color(color).to_string()
}

/// Calls the method of `Colorize` that bears the attribute's name (`bold`, `dimmed`,
/// `italic`, `underline`, `blink`, `reversed`, `hidden`, `strikethrough`) on `text`, and
/// formats the result with its `Display`.
///
/// Not proved: that the outcome is `text` itself where `colored` has coloring switched
/// off, and [`style_shown`] of the text and the attribute where it is on: the text
/// between the sequence with the attribute's number and the reset sequence, with the
/// first of the two again after every reset sequence inside the text. The switch is
/// taken not to move while one text is being formatted.
#[verifier::external_body]
pub(crate) fn paint_style(text: &str, style: Style) -> (painted: String)
    ensures
        painted@ == text@ || painted@ == style_shown(text@, style),
{
    let painted = match style {
        Style::Bold => text.bold(),
        Style::Dimmed => text.dimmed(),
        Style::Italic => text.italic(),
        Style::Underline => text.underline(),
        Style::Blink => text.blink(),
        Style::Reverse => text.reversed(),
        Style::Hidden => text.hidden(),
        Style::Strikethrough => text.strikethrough(),
    };
    painted.to_string()
}

} // verus!
