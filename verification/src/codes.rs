//! The code tables: which character of a map selects which color or style.

use vstd::prelude::*;

verus! {

/// The three kinds of map that can be laid over the art.
#[derive(Clone, Copy, Debug, PartialEq, Eq, Structural)]
pub enum Layer {
    Foreground,
    Background,
    Style,
}

/// The sixteen colors of the palette: eight standard ones, then their bright variants.
#[derive(Clone, Copy, Debug, PartialEq, Eq, Structural)]
pub enum Color {
    Black,
    Red,
    Green,
    Yellow,
    Blue,
    Purple,
    Cyan,
    White,
    BrightBlack,
    BrightRed,
    BrightGreen,
    BrightYellow,
    BrightBlue,
    BrightPurple,
    BrightCyan,
    BrightWhite,
}

/// The text attributes a style map can select.
#[derive(Clone, Copy, Debug, PartialEq, Eq, Structural)]
pub enum Style {
    Bold,
    Dimmed,
    Italic,
    Underline,
    Blink,
    Reverse,
    Hidden,
    Strikethrough,
}

/// A code that asks for nothing: no code at all, a space, a dash or a newline.
pub open spec fn is_no_op(code: Option<char>) -> bool {
    code is None || code == Some(' ') || code == Some('-') || code == Some('\n')
}

/// The color that a code character selects, on foreground and background maps alike.
pub open spec fn color_of(code: char) -> Option<Color> {
    if code == '0' {
        Some(Color::Black)
    } else if code == '1' {
        Some(Color::Red)
    } else if code == '2' {
        Some(Color::Green)
    } else if code == '3' {
        Some(Color::Yellow)
    } else if code == '4' {
        Some(Color::Blue)
    } else if code == '5' {
        Some(Color::Purple)
    } else if code == '6' {
        Some(Color::Cyan)
    } else if code == '7' {
        Some(Color::White)
    } else if code == '8' {
        Some(Color::BrightBlack)
    } else if code == '9' {
        Some(Color::BrightRed)
    } else if code == 'a' {
        Some(Color::BrightGreen)
    } else if code == 'b' {
        Some(Color::BrightYellow)
    } else if code == 'c' {
        Some(Color::BrightBlue)
    } else if code == 'd' {
        Some(Color::BrightPurple)
    } else if code == 'e' {
        Some(Color::BrightCyan)
    } else if code == 'f' {
        Some(Color::BrightWhite)
    } else {
        None
    }
}

/// The attribute that a code character selects on a style map. The terminal knows one
/// kind of blinking, so `5` and `6` select the same attribute.
pub open spec fn style_of(code: char) -> Option<Style> {
    if code == '1' {
        Some(Style::Bold)
    } else if code == '2' {
        Some(Style::Dimmed)
    } else if code == '3' {
        Some(Style::Italic)
    } else if code == '4' {
        Some(Style::Underline)
    } else if code == '5' || code == '6' {
        Some(Style::Blink)
    } else if code == '7' {
        Some(Style::Reverse)
    } else if code == '8' {
        Some(Style::Hidden)
    } else if code == '9' {
        Some(Style::Strikethrough)
    } else {
        None
    }
}

/// The number that selects a color for the foreground in an escape sequence.
pub open spec fn foreground_number(color: Color) -> nat {
    match color {
        Color::Black => 30,
        Color::Red => 31,
        Color::Green => 32,
        Color::Yellow => 33,
        Color::Blue => 34,
        Color::Purple => 35,
        Color::Cyan => 36,
        Color::White => 37,
        Color::BrightBlack => 90,
        Color::BrightRed => 91,
        Color::BrightGreen => 92,
        Color::BrightYellow => 93,
        Color::BrightBlue => 94,
        Color::BrightPurple => 95,
        Color::BrightCyan => 96,
        Color::BrightWhite => 97,
    }
}

/// The number that selects a color for the background in an escape sequence.
pub open spec fn background_number(color: Color) -> nat {
    foreground_number(color) + 10
}

/// The number that selects a text attribute in an escape sequence for the terminal.
pub open spec fn style_number(style: Style) -> nat {
    match style {
        Style::Bold => 1,
        Style::Dimmed => 2,
        Style::Italic => 3,
        Style::Underline => 4,
        Style::Blink => 5,
        Style::Reverse => 7,
        Style::Hidden => 8,
        Style::Strikethrough => 9,
    }
}

/// Whether a map of the given kind may hold `code`: it asks for nothing, or the table of
/// that kind knows it.
pub open spec fn is_known(layer: Layer, code: Option<char>) -> bool {
    is_no_op(code) || match layer {
        Layer::Style => style_of(code->0) is Some,
        _ => color_of(code->0) is Some,
    }
}

/// What a color code asks for: `Ok(None)` where it asks for nothing, the color where the
/// table knows the character, and the character itself as the error where it does not.
pub fn lookup_color(code: Option<char>) -> (found: Result<Option<Color>, char>)
    ensures
        is_no_op(code) ==> found == Ok::<Option<Color>, char>(None),
        !is_no_op(code) && color_of(code->0) is Some ==> found == Ok::<Option<Color>, char>(
            color_of(code->0),
        ),
        !is_no_op(code) && color_of(code->0) is None ==> found == Err::<Option<Color>, char>(
            code->0,
        ),
{
    match code {
        None | Some(' ') | Some('-') | Some('\n') => Ok(None),
        Some('0') => Ok(Some(Color::Black)),
        Some('1') => Ok(Some(Color::Red)),
        Some('2') => Ok(Some(Color::Green)),
        Some('3') => Ok(Some(Color::Yellow)),
        Some('4') => Ok(Some(Color::Blue)),
        Some('5') => Ok(Some(Color::Purple)),
        Some('6') => Ok(Some(Color::Cyan)),
        Some('7') => Ok(Some(Color::White)),
        Some('8') => Ok(Some(Color::BrightBlack)),
        Some('9') => Ok(Some(Color::BrightRed)),
        Some('a') => Ok(Some(Color::BrightGreen)),
        Some('b') => Ok(Some(Color::BrightYellow)),
        Some('c') => Ok(Some(Color::BrightBlue)),
        Some('d') => Ok(Some(Color::BrightPurple)),
        Some('e') => Ok(Some(Color::BrightCyan)),
        Some('f') => Ok(Some(Color::BrightWhite)),
        Some(c) => Err(c),
    }
}

/// What a style code asks for, in the same three cases as [`lookup_color`].
pub fn lookup_style(code: Option<char>) -> (found: Result<Option<Style>, char>)
    ensures
        is_no_op(code) ==> found == Ok::<Option<Style>, char>(None),
        !is_no_op(code) && style_of(code->0) is Some ==> found == Ok::<Option<Style>, char>(
            style_of(code->0),
        ),
        !is_no_op(code) && style_of(code->0) is None ==> found == Err::<Option<Style>, char>(
            code->0,
        ),
{
    match code {
        None | Some(' ') | Some('-') | Some('\n') => Ok(None),
        Some('1') => Ok(Some(Style::Bold)),
        Some('2') => Ok(Some(Style::Dimmed)),
        Some('3') => Ok(Some(Style::Italic)),
        Some('4') => Ok(Some(Style::Underline)),
        Some('5') => Ok(Some(Style::Blink)),
        Some('6') => Ok(Some(Style::Blink)),
        Some('7') => Ok(Some(Style::Reverse)),
        Some('8') => Ok(Some(Style::Hidden)),
        Some('9') => Ok(Some(Style::Strikethrough)),
        Some(c) => Err(c),
    }
}

} // verus!
