//! The compositor: from a character of the art and the codes laid over it to the text that
//! shows it, on a terminal or in a file of escape sequences.

use vstd::prelude::*;

use crate::codes::{
    background_number, color_of, foreground_number, is_known, is_no_op, lookup_color,
    lookup_style, style_number, style_of, Color, Layer,
};
use crate::paint::{
    background_shown, foreground_shown, paint_background, paint_foreground, paint_style, reset,
    style_shown, switch_on,
};
use crate::text::{decimal, push_decimal};

verus! {

/// Where the rendering goes: straight to the terminal, or into the file of the given path,
/// to be shown later by something that interprets backslash escapes.
#[derive(Debug, PartialEq, Eq)]
pub enum Output {
    Stdout,
    File(String),
}

impl Clone for Output {
    fn clone(&self) -> (copy: Output)
        ensures
            copy == *self,
    {
        match self {
            Output::Stdout => Output::Stdout,
            Output::File(path) => Output::File(path.clone()),
        }
    }
}

/// One position of the art: its character and the codes that the three maps hold there.
#[derive(Clone, Copy, Debug, PartialEq, Eq)]
pub struct FormattedChar {
    pub ascii: char,
    pub fg_color: Option<char>,
    pub bg_color: Option<char>,
    pub style: Option<char>,
}

impl FormattedChar {
    /// Every code at this position is one that its table knows, or asks for nothing.
    pub open spec fn is_known(self) -> bool {
        &&& is_known(Layer::Foreground, self.fg_color)
        &&& is_known(Layer::Background, self.bg_color)
        &&& is_known(Layer::Style, self.style)
    }
}

/// The attribute code that a map of the given kind contributes at a position where it
/// holds `code`: none where the code asks for nothing, the character itself for a style,
/// the color's number in base ten for a color.
pub open spec fn layer_codes(layer: Layer, code: Option<char>) -> Seq<Seq<char>> {
    if is_no_op(code) {
        seq![]
    } else {
        match layer {
            Layer::Style => if style_of(code->0) is Some {
                seq![seq![code->0]]
            } else {
                seq![]
            },
            Layer::Foreground => if color_of(code->0) is Some {
                seq![decimal(foreground_number(color_of(code->0)->0))]
            } else {
                seq![]
            },
            Layer::Background => if color_of(code->0) is Some {
                seq![decimal(background_number(color_of(code->0)->0))]
            } else {
                seq![]
            },
        }
    }
}

/// The attribute codes that a position contributes to its escape sequence: the style's,
/// the foreground's, the background's, in that order.
pub open spec fn escape_codes(ch: FormattedChar) -> Seq<Seq<char>> {
    layer_codes(Layer::Style, ch.style) + layer_codes(Layer::Foreground, ch.fg_color)
        + layer_codes(Layer::Background, ch.bg_color)
}

/// The codes of an escape sequence, with a semicolon between one and the next.
pub open spec fn joined(codes: Seq<Seq<char>>) -> Seq<char>
    decreases codes.len(),
{
    if codes.len() == 0 {
        seq![]
    } else if codes.len() == 1 {
        codes[0]
    } else {
        joined(codes.drop_last()) + seq![';'] + codes.last()
    }
}

/// What a file holds for one position. A newline of the art is written as a backslash and
/// an `n`. Any other character stands bare where no map asks for anything, and else
/// between the sequence that switches its attributes on and the one that resets them.
pub open spec fn file_unit(ch: FormattedChar) -> Seq<char> {
    if ch.ascii == '\n' {
        seq!['\\', 'n']
    } else if escape_codes(ch).len() == 0 {
        seq![ch.ascii]
    } else {
        seq!['\\', 'e', '['] + joined(escape_codes(ch)) + seq!['m', ch.ascii] + seq![
            '\\',
            'e',
            '[',
            '0',
            'm',
        ]
    }
}

/// What the terminal library decided at one position, each time it was asked to paint:
/// `true` where it painted, `false` where it handed the text back.
pub struct Painted {
    pub foreground: bool,
    pub background: bool,
    pub style: bool,
}

/// What the terminal gets for one position, given what the terminal library decided
/// there. A newline of the art is never painted. Any other character is painted with the
/// foreground color, the outcome with the background color, and that outcome with the
/// style, each only where the map asks for something.
pub open spec fn terminal_unit(ch: FormattedChar, painted: Painted) -> Seq<char> {
    if ch.ascii == '\n' {
        seq!['\n']
    } else {
        let bare = seq![ch.ascii];
        let fronted = if painted.foreground && !is_no_op(ch.fg_color) && color_of(
            ch.fg_color->0,
        ) is Some {
            foreground_shown(bare, color_of(ch.fg_color->0)->0)
        } else {
            bare
        };
        let backed = if painted.background && !is_no_op(ch.bg_color) && color_of(
            ch.bg_color->0,
        ) is Some {
            background_shown(fronted, color_of(ch.bg_color->0)->0)
        } else {
            fronted
        };
        if painted.style && !is_no_op(ch.style) && style_of(ch.style->0) is Some {
            style_shown(backed, style_of(ch.style->0)->0)
        } else {
            backed
        }
    }
}

/// Whether `unit` is something the terminal can get for the position `ch`.
pub open spec fn is_terminal_unit(ch: FormattedChar, unit: Seq<char>) -> bool {
    exists|painted: Painted| unit == #[trigger] terminal_unit(ch, painted)
}

fn foreground_code(color: Color) -> (number: usize)
    ensures
        number == foreground_number(color),
{
    match color {
        Color::Black => 30,
        Color::Red => 31,
        Color::Green => 32,
        Color::Yellow => 33,
        Color::Blue => 34,
        Color::Purple => 35,
        Color::Cyan => 36,
        Color::White => 37,
        Color::BrightBlack => 90,
        Color::BrightRed => 91,
        Color::BrightGreen => 92,
        Color::BrightYellow => 93,
        Color::BrightBlue => 94,
        Color::BrightPurple => 95,
        Color::BrightCyan => 96,
        Color::BrightWhite => 97,
    }
}

proof fn lemma_joined_push(codes: Seq<Seq<char>>, code: Seq<char>)
    ensures
        joined(codes.push(code)) == if codes.len() == 0 {
            code
        } else {
            joined(codes) + seq![';'] + code
        },
{
    assert(codes.push(code).drop_last() == codes);
}

/// Appends to `codes` what a map of the given kind contributes, after a semicolon where
/// something stands there already.
fn push_layer_codes(
    codes: &mut String,
    any: bool,
    layer: Layer,
    code: Option<char>,
    Ghost(written): Ghost<Seq<Seq<char>>>,
) -> (now: bool)
    requires
        is_known(layer, code),
        old(codes)@ == joined(written),
        any == (written.len() > 0),
    ensures
        final(codes)@ == joined(written + layer_codes(layer, code)),
        now == ((written + layer_codes(layer, code)).len() > 0),
{
    let ghost added = layer_codes(layer, code);
    match layer {
        Layer::Style => match (lookup_style(code), code) {
            (Ok(Some(_)), Some(c)) => {
                if any {
                    codes.push(';');
                }
                codes.push(c);
                proof {
                    lemma_joined_push(written, seq![c]);
                    assert(written + added == written.push(seq![c]));
                }
                true
            },
            _ => any,
        },
        _ => match lookup_color(code) {
            Ok(Some(color)) => {
                if any {
                    codes.push(';');
                }
                let number = match layer {
                    Layer::Background => foreground_code(color) + 10,
                    _ => foreground_code(color),
                };
                push_decimal(codes, number);
                proof {
                    lemma_joined_push(written, decimal(number as nat));
                    assert(written + added == written.push(decimal(number as nat)));
                }
                true
            },
            _ => any,
        },
    }
}

/// The text that shows one position of the art in a file of escape sequences.
fn stylise_for_file(ch: FormattedChar) -> (unit: String)
    requires
        ch.ascii != '\n' ==> ch.is_known(),
    ensures
        unit@ == file_unit(ch),
{
    if ch.ascii == '\n' {
        proof {
            reveal_strlit("\\n");
        }
        return String::from_str("\\n");
    }
    let mut codes = String::new();
    let ghost style = layer_codes(Layer::Style, ch.style);
    let ghost foreground = layer_codes(Layer::Foreground, ch.fg_color);
    let any = push_layer_codes(&mut codes, false, Layer::Style, ch.style, Ghost(Seq::empty()));
    let any = push_layer_codes(&mut codes, any, Layer::Foreground, ch.fg_color, Ghost(style));
    let any = push_layer_codes(
        &mut codes,
        any,
        Layer::Background,
        ch.bg_color,
        Ghost(style + foreground),
    );
    let mut unit = String::new();
    if any {
        proof {
            reveal_strlit("\\e[");
            reveal_strlit("\\e[0m");
        }
        unit.append("\\e[");
        unit.append(codes.as_str());
        unit.push('m');
        unit.push(ch.ascii);
        unit.append("\\e[0m");
    } else {
        unit.push(ch.ascii);
    }
    unit
}

/// The text that shows one position of the art on the terminal.
fn stylise_for_terminal(ch: FormattedChar) -> (unit: String)
    requires
        ch.ascii != '\n' ==> ch.is_known(),
    ensures
        is_terminal_unit(ch, unit@),
{
    let mut unit = String::new();
    unit.push(ch.ascii);
    if ch.ascii == '\n' {
        assert(unit@ == terminal_unit(
            ch,
            Painted { foreground: false, background: false, style: false },
        ));
        return unit;
    }
    let ghost bare = unit@;
    if let Ok(Some(color)) = lookup_color(ch.fg_color) {
        unit = paint_foreground(unit.as_str(), color);
    }
    let ghost fronted = unit@;
    if let Ok(Some(color)) = lookup_color(ch.bg_color) {
        unit = paint_background(unit.as_str(), color);
    }
    let ghost backed = unit@;
    if let Ok(Some(style)) = lookup_style(ch.style) {
        unit = paint_style(unit.as_str(), style);
    }
    assert(unit@ == terminal_unit(
        ch,
        Painted {
            foreground: fronted != bare,
            background: backed != fronted,
            style: unit@ != backed,
        },
    ));
    unit
}

/// The text that shows one position of the art on the given output.
///
/// For a file the text is [`file_unit`] of the position. For the terminal it is one of the
/// texts that [`terminal_unit`] allows, according to what the terminal library decides.
pub fn stylise_char(output_type: &Output, new_char: FormattedChar) -> (unit: String)
    requires
        new_char.ascii != '\n' ==> new_char.is_known(),
    ensures
        output_type is File ==> unit@ == file_unit(new_char),
        output_type is Stdout ==> is_terminal_unit(new_char, unit@),
{
    match output_type {
        Output::Stdout => stylise_for_terminal(new_char),
        Output::File(_) => stylise_for_file(new_char),
    }
}

/// Where no map asks for anything, a file holds the character of the art and nothing
/// else.
pub proof fn lemma_bare_in_file(ch: FormattedChar)
    requires
        ch.ascii != '\n',
        is_no_op(ch.fg_color),
        is_no_op(ch.bg_color),
        is_no_op(ch.style),
    ensures
        file_unit(ch) == seq![ch.ascii],
{
}

/// Where only the style map asks for something, a file holds the character between the
/// sequence that holds the style's code alone, with no semicolon, and the one that resets.
pub proof fn lemma_style_alone_in_file(ch: FormattedChar)
    requires
        ch.ascii != '\n',
        is_no_op(ch.fg_color),
        is_no_op(ch.bg_color),
        !is_no_op(ch.style),
        style_of(ch.style->0) is Some,
    ensures
        file_unit(ch) == seq![
            '\\',
            'e',
            '[',
            ch.style->0,
            'm',
            ch.ascii,
            '\\',
            'e',
            '[',
            '0',
            'm',
        ],
{
}

/// Where no map asks for anything, the terminal gets the character of the art and
/// nothing else, whatever the terminal library would decide.
pub proof fn lemma_bare_on_terminal(ch: FormattedChar, painted: Painted)
    requires
        is_no_op(ch.fg_color),
        is_no_op(ch.bg_color),
        is_no_op(ch.style),
    ensures
        terminal_unit(ch, painted) == seq![ch.ascii],
{
}

/// Where the terminal library paints nothing, the terminal gets the character of the art
/// and nothing else, whatever the maps ask for.
pub proof fn lemma_unpainted_on_terminal(ch: FormattedChar)
    ensures
        terminal_unit(ch, Painted { foreground: false, background: false, style: false })
            == seq![ch.ascii],
{
}

/// Where only the foreground map asks for something and the terminal library paints,
/// the terminal gets the character between the sequence that holds the number of the
/// color and the one that resets.
pub proof fn lemma_foreground_alone_on_terminal(ch: FormattedChar, painted: Painted)
    requires
        ch.ascii != '\n',
        painted.foreground,
        !is_no_op(ch.fg_color),
        color_of(ch.fg_color->0) is Some,
        is_no_op(ch.bg_color),
        is_no_op(ch.style),
    ensures
        terminal_unit(ch, painted) == switch_on(foreground_number(color_of(ch.fg_color->0)->0))
            + seq![ch.ascii] + reset(),
{
}

/// Where only the background map asks for something and the terminal library paints,
/// the terminal gets the character between the sequence that holds the number of the
/// color and the one that resets.
pub proof fn lemma_background_alone_on_terminal(ch: FormattedChar, painted: Painted)
    requires
        ch.ascii != '\n',
        painted.background,
        is_no_op(ch.fg_color),
        !is_no_op(ch.bg_color),
        color_of(ch.bg_color->0) is Some,
        is_no_op(ch.style),
    ensures
        terminal_unit(ch, painted) == switch_on(background_number(color_of(ch.bg_color->0)->0))
            + seq![ch.ascii] + reset(),
{
}

/// Where only the style map asks for something and the terminal library paints, the
/// terminal gets the character between the sequence that holds the number of the
/// attribute and the one that resets.
pub proof fn lemma_style_alone_on_terminal(ch: FormattedChar, painted: Painted)
    requires
        ch.ascii != '\n',
        painted.style,
        is_no_op(ch.fg_color),
        is_no_op(ch.bg_color),
        !is_no_op(ch.style),
        style_of(ch.style->0) is Some,
    ensures
        terminal_unit(ch, painted) == switch_on(style_number(style_of(ch.style->0)->0)) + seq![
            ch.ascii,
        ] + reset(),
{
}

} // verus!
