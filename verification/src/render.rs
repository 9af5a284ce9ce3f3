//! Rendering the whole art: the art and its three maps are walked in step, one position at
//! a time, and what shows each position is written out in the order of the art.

use vstd::prelude::*;

use crate::codes::{is_known, lookup_color, lookup_style, Layer};
use crate::compose::{
    file_unit, is_terminal_unit, stylise_char, terminal_unit, FormattedChar, Output, Painted,
};
use crate::diagnostic::Diagnostic;

verus! {

/// All that a run works on: the art, a code for each of its positions from each of the
/// three maps, whether any of the maps was given, and where the rendering goes. A map
/// that was not given holds no code anywhere.
#[derive(Debug, PartialEq, Eq)]
pub struct FileContents {
    pub ascii_art: Vec<char>,
    pub fg_color_map: Vec<Option<char>>,
    pub bg_color_map: Vec<Option<char>>,
    pub style_map: Vec<Option<char>>,
    pub map_given: bool,
    pub output_file: Output,
}

/// A code that does not belong on a map of the given kind, as a finding.
pub open spec fn unknown(layer: Layer, code: Option<char>) -> Diagnostic {
    Diagnostic::UnknownCode { layer, code: code->0 }
}

/// The first code of a position that its table does not know, in the order in which the
/// output looks codes up: foreground, background, style for the terminal; style,
/// foreground, background for a file. A newline of the art takes no code, so there
/// nothing is looked up.
pub open spec fn unknown_code(ch: FormattedChar, output: Output) -> Option<Diagnostic> {
    let foreground = is_known(Layer::Foreground, ch.fg_color);
    let background = is_known(Layer::Background, ch.bg_color);
    let style = is_known(Layer::Style, ch.style);
    if ch.ascii == '\n' || (foreground && background && style) {
        None
    } else if output is File {
        if !style {
            Some(unknown(Layer::Style, ch.style))
        } else if !foreground {
            Some(unknown(Layer::Foreground, ch.fg_color))
        } else {
            Some(unknown(Layer::Background, ch.bg_color))
        }
    } else {
        if !foreground {
            Some(unknown(Layer::Foreground, ch.fg_color))
        } else if !background {
            Some(unknown(Layer::Background, ch.bg_color))
        } else {
            Some(unknown(Layer::Style, ch.style))
        }
    }
}

/// The code that a map holds at a position; none past its end.
pub open spec fn code_at(map: Seq<Option<char>>, i: int) -> Option<char> {
    if 0 <= i < map.len() {
        map[i]
    } else {
        None
    }
}

impl FileContents {
    /// Whether every map is whole: as long as the art, so that each position of the art
    /// has its place in each map.
    pub open spec fn is_whole(&self) -> bool {
        &&& self.fg_color_map@.len() == self.ascii_art@.len()
        &&& self.bg_color_map@.len() == self.ascii_art@.len()
        &&& self.style_map@.len() == self.ascii_art@.len()
    }

    /// How many positions are rendered: every one of the art.
    pub open spec fn positions(&self) -> nat {
        self.ascii_art@.len()
    }

    /// The character of the art at a position, with the codes that the maps hold there.
    /// A map that ends before the art holds no code from there on.
    pub open spec fn position(&self, i: int) -> FormattedChar {
        FormattedChar {
            ascii: self.ascii_art@[i],
            fg_color: code_at(self.fg_color_map@, i),
            bg_color: code_at(self.bg_color_map@, i),
            style: code_at(self.style_map@, i),
        }
    }

    /// What a file holds for each of the first `count` positions.
    pub open spec fn file_units(&self, count: nat) -> Seq<Seq<char>> {
        Seq::new(count, |i: int| file_unit(self.position(i)))
    }

    /// The rendering for a file: what it holds for each position, one after the other.
    pub open spec fn file_rendering(&self) -> Seq<char> {
        self.file_units(self.positions()).flatten()
    }

    /// What the terminal gets for each of the first positions, as many as there are
    /// entries in `painted`, which says what the terminal library decided at each.
    pub open spec fn terminal_units(&self, painted: Seq<Painted>) -> Seq<Seq<char>> {
        Seq::new(painted.len(), |i: int| terminal_unit(self.position(i), painted[i]))
    }

    /// The rendering for the terminal, given what the terminal library decided at each
    /// position.
    pub open spec fn terminal_rendering(&self, painted: Seq<Painted>) -> Seq<char> {
        self.terminal_units(painted).flatten()
    }

    /// The first position from `from` on that holds a code its table does not know; the
    /// number of positions where there is none.
    pub open spec fn first_unknown(&self, from: int) -> int
        decreases self.positions() - from,
    {
        if from < 0 || from >= self.positions() || unknown_code(
            self.position(from),
            self.output_file,
        ) is Some {
            from
        } else {
            self.first_unknown(from + 1)
        }
    }

    /// What rendering comes to. Where some position holds a code that its table does not
    /// know, the first such position decides the finding. Else the text is the rendering
    /// for a file, or one of those that the terminal can get.
    pub open spec fn is_rendering(&self, outcome: Result<String, Diagnostic>) -> bool {
        let stop = self.first_unknown(0);
        match outcome {
            Ok(text) => {
                &&& stop == self.positions()
                &&& self.output_file is File ==> text@ == self.file_rendering()
                &&& self.output_file is Stdout ==> exists|painted: Seq<Painted>|
                    {
                        &&& painted.len() == self.positions()
                        &&& text@ == #[trigger] self.terminal_rendering(painted)
                    }
            },
            Err(diagnostic) => {
                &&& stop < self.positions()
                &&& unknown_code(self.position(stop), self.output_file) == Some(diagnostic)
            },
        }
    }

    /// The art alone: no map was given, every map is whole and holds no code anywhere,
    /// and the rendering goes to the terminal.
    pub fn new(ascii_art: Vec<char>) -> (contents: FileContents)
        ensures
            contents.ascii_art == ascii_art,
            contents.output_file == Output::Stdout,
            !contents.map_given,
            contents.is_whole(),
            forall|i: int|
                0 <= i < ascii_art@.len() ==> {
                    &&& contents.fg_color_map@[i] is None
                    &&& contents.bg_color_map@[i] is None
                    &&& contents.style_map@[i] is None
                },
    {
        let count = ascii_art.len();
        FileContents {
            ascii_art,
            fg_color_map: no_codes(count),
            bg_color_map: no_codes(count),
            style_map: no_codes(count),
            map_given: false,
            output_file: Output::Stdout,
        }
    }

    /// Puts `map` in the place of the map of the given kind, records that a map was
    /// given, whatever it holds, and leaves the rest as it is. The maps stay whole where
    /// `map` is as long as the art.
    pub fn set_map(&mut self, layer: Layer, map: Vec<Option<char>>)
        ensures
            final(self).ascii_art == old(self).ascii_art,
            final(self).output_file == old(self).output_file,
            final(self).map_given,
            old(self).is_whole() && map@.len() == old(self).ascii_art@.len()
                ==> final(self).is_whole(),
            final(self).fg_color_map == if layer == Layer::Foreground {
                map
            } else {
                old(self).fg_color_map
            },
            final(self).bg_color_map == if layer == Layer::Background {
                map
            } else {
                old(self).bg_color_map
            },
            final(self).style_map == if layer == Layer::Style {
                map
            } else {
                old(self).style_map
            },
    {
        self.map_given = true;
        match layer {
            Layer::Foreground => {
                self.fg_color_map = map;
            },
            Layer::Background => {
                self.bg_color_map = map;
            },
            Layer::Style => {
                self.style_map = map;
            },
        }
    }

    /// Whether any of the three maps was given.
    pub fn has_maps(&self) -> (yes: bool)
        ensures
            yes == self.map_given,
    {
        self.map_given
    }
}

fn no_codes(count: usize) -> (map: Vec<Option<char>>)
    ensures
        map@.len() == count,
        forall|i: int| 0 <= i < count ==> map@[i] is None,
{
    let mut map: Vec<Option<char>> = Vec::new();
    let mut i: usize = 0;
    while i < count
        invariant
            i <= count,
            map@.len() == i,
            forall|j: int| 0 <= j < i ==> map@[j] is None,
        decreases count - i,
    {
        map.push(None);
        i += 1;
    }
    map
}

fn find_unknown(ch: FormattedChar, output: &Output) -> (found: Option<Diagnostic>)
    ensures
        found == unknown_code(ch, *output),
{
    if ch.ascii == '\n' {
        return None;
    }
    let foreground = match lookup_color(ch.fg_color) {
        Ok(_) => None,
        Err(code) => Some(Diagnostic::UnknownCode { layer: Layer::Foreground, code }),
    };
    let background = match lookup_color(ch.bg_color) {
        Ok(_) => None,
        Err(code) => Some(Diagnostic::UnknownCode { layer: Layer::Background, code }),
    };
    let style = match lookup_style(ch.style) {
        Ok(_) => None,
        Err(code) => Some(Diagnostic::UnknownCode { layer: Layer::Style, code }),
    };
    match output {
        Output::File(_) => {
            if style.is_some() {
                style
            } else if foreground.is_some() {
                foreground
            } else {
                background
            }
        },
        Output::Stdout => {
            if foreground.is_some() {
                foreground
            } else if background.is_some() {
                background
            } else {
                style
            }
        },
    }
}

/// The text that shows one position of the art on the given output, or the finding for
/// the first of its codes that no table knows: see [`unknown_code`].
pub fn try_stylise_char(output_type: &Output, new_char: FormattedChar) -> (unit: Result<
    String,
    Diagnostic,
>)
    ensures
        match unit {
            Ok(text) => {
                &&& unknown_code(new_char, *output_type) is None
                &&& output_type is File ==> text@ == file_unit(new_char)
                &&& output_type is Stdout ==> is_terminal_unit(new_char, text@)
            },
            Err(diagnostic) => unknown_code(new_char, *output_type) == Some(diagnostic),
        },
{
    match find_unknown(new_char, output_type) {
        Some(diagnostic) => Err(diagnostic),
        None => Ok(stylise_char(output_type, new_char)),
    }
}

fn code_of(map: &Vec<Option<char>>, i: usize) -> (code: Option<char>)
    ensures
        code == code_at(map@, i as int),
{
    if i < map.len() {
        map[i]
    } else {
        None
    }
}

/// Renders the art under its maps for the output that `contents` names: every position
/// of the art, in order.
///
/// The outcome is what [`FileContents::is_rendering`] describes: the finding for the
/// first code that no table knows, and the rendering where there is no such code.
pub fn render(contents: &FileContents) -> (outcome: Result<String, Diagnostic>)
    ensures
        contents.is_rendering(outcome),
{
    let count = contents.ascii_art.len();
    let mut text = String::new();
    let ghost mut painted: Seq<Painted> = Seq::empty();
    let mut i: usize = 0;
    while i < count
        invariant
            i <= count,
            count == contents.positions(),
            contents.first_unknown(0) == contents.first_unknown(i as int),
            contents.output_file is File ==> text@ == contents.file_units(i as nat).flatten(),
            contents.output_file is Stdout ==> painted.len() == i && text@
                == contents.terminal_units(painted).flatten(),
        decreases count - i,
    {
        let ch = FormattedChar {
            ascii: contents.ascii_art[i],
            fg_color: code_of(&contents.fg_color_map, i),
            bg_color: code_of(&contents.bg_color_map, i),
            style: code_of(&contents.style_map, i),
        };
        let unit = match try_stylise_char(&contents.output_file, ch) {
            Ok(unit) => unit,
            Err(diagnostic) => {
                return Err(diagnostic);
            },
        };
        proof {
            broadcast use Seq::lemma_flatten_push;

            if contents.output_file is Stdout {
                let decided = choose|decided: Painted| unit@ == terminal_unit(ch, decided);
                assert(contents.terminal_units(painted.push(decided)) == contents.terminal_units(
                    painted,
                ).push(unit@));
                painted = painted.push(decided);
            } else {
                assert(contents.file_units((i + 1) as nat) == contents.file_units(i as nat).push(
                    unit@,
                ));
            }
        }
        text.append(unit.as_str());
        i += 1;
    }
    proof {
        if contents.output_file is Stdout {
            assert(text@ == contents.terminal_rendering(painted));
        }
    }
    Ok(text)
}

/// From `from` on, no position before the first unknown code holds one, and that position
/// does, unless it is the end.
pub proof fn lemma_first_unknown(contents: FileContents, from: int)
    requires
        0 <= from <= contents.positions(),
    ensures
        from <= contents.first_unknown(from) <= contents.positions(),
        forall|j: int|
            from <= j < contents.first_unknown(from) ==> unknown_code(
                #[trigger] contents.position(j),
                contents.output_file,
            ) is None,
        contents.first_unknown(from) < contents.positions() ==> unknown_code(
            contents.position(contents.first_unknown(from)),
            contents.output_file,
        ) is Some,
    decreases contents.positions() - from,
{
    if from < contents.positions() && unknown_code(
        contents.position(from),
        contents.output_file,
    ) is None {
        lemma_first_unknown(contents, from + 1);
    }
}

/// Rendering the same art under the same maps for a file comes to the same twice: the
/// same finding, or the same text.
pub proof fn lemma_file_rendering_repeats(
    contents: FileContents,
    first: Result<String, Diagnostic>,
    second: Result<String, Diagnostic>,
)
    requires
        contents.output_file is File,
        contents.is_rendering(first),
        contents.is_rendering(second),
    ensures
        first is Ok <==> second is Ok,
        first matches Err(diagnostic) ==> second == Err::<String, Diagnostic>(diagnostic),
        first matches Ok(text) ==> second->Ok_0@ == text@,
{
}

/// Rendering the same art under the same maps for the terminal comes to the same finding
/// twice, or to a text twice; and to the same text, where the terminal library decided
/// alike both times.
pub proof fn lemma_terminal_rendering_repeats(
    contents: FileContents,
    painted: Seq<Painted>,
    first: Result<String, Diagnostic>,
    second: Result<String, Diagnostic>,
)
    requires
        contents.output_file is Stdout,
        contents.is_rendering(first),
        contents.is_rendering(second),
        first matches Ok(text) ==> text@ == contents.terminal_rendering(painted),
        second matches Ok(text) ==> text@ == contents.terminal_rendering(painted),
    ensures
        first is Ok <==> second is Ok,
        first matches Err(diagnostic) ==> second == Err::<String, Diagnostic>(diagnostic),
        first matches Ok(text) ==> second->Ok_0@ == text@,
{
}

/// Where the terminal library paints nothing, the rendering for the terminal is the art
/// itself, as far as it is rendered.
pub proof fn lemma_unpainted_rendering(contents: FileContents, painted: Seq<Painted>)
    requires
        painted.len() <= contents.positions(),
        forall|i: int|
            0 <= i < painted.len() ==> !painted[i].foreground && !painted[i].background
                && !painted[i].style,
    ensures
        contents.terminal_rendering(painted) == contents.ascii_art@.take(painted.len() as int),
    decreases painted.len(),
{
    broadcast use Seq::lemma_flatten_push;

    if painted.len() > 0 {
        let before = painted.drop_last();
        let last = before.len() as int;
        lemma_unpainted_rendering(contents, before);
        assert(contents.terminal_units(painted) == contents.terminal_units(before).push(
            seq![contents.ascii_art@[last]],
        )) by {
            assert(terminal_unit(contents.position(last), painted[last]) == seq![
                contents.ascii_art@[last],
            ]);
        }
    }
}

} // verus!
