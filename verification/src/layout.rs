//! The structural check: a map fits the art when it has the art's lines, as many of them
//! and each as long, and ends as the art does. Such a map stands against the art place by
//! place.

use vstd::prelude::*;

use crate::diagnostic::Diagnostic;
use crate::text::chars_of;

verus! {

/// Where the first line of `text` stops: the place of its first newline, or its length
/// where it has none.
pub open spec fn line_end(text: Seq<char>) -> int
    decreases text.len(),
{
    if text.len() == 0 || text[0] == '\n' {
        0
    } else {
        1 + line_end(text.drop_first())
    }
}

/// The lines of a text. A line ends at a newline, which does not belong to it; every
/// other character, a carriage return too, is a character of its line. What follows the
/// last newline is a line too, unless nothing follows it.
pub open spec fn lines(text: Seq<char>) -> Seq<Seq<char>>
    decreases text.len(),
{
    let end = line_end(text);
    if text.len() == 0 {
        seq![]
    } else if 0 <= end < text.len() {
        seq![text.take(end)] + lines(text.skip(end + 1))
    } else {
        seq![text]
    }
}

/// How many characters each line of a text has.
pub open spec fn line_lengths(text: Seq<char>) -> Seq<nat> {
    lines(text).map_values(|line: Seq<char>| line.len())
}

/// Measured lengths as numbers without bound.
pub open spec fn widths(lengths: Seq<usize>) -> Seq<nat> {
    lengths.map_values(|length: usize| length as nat)
}

/// The first line on which two lists of lengths differ, or the length of the shorter list
/// where one continues the other.
pub open spec fn first_difference(art: Seq<nat>, map: Seq<nat>) -> int
    decreases art.len(),
{
    if art.len() == 0 || map.len() == 0 || art[0] != map[0] {
        0
    } else {
        1 + first_difference(art.drop_first(), map.drop_first())
    }
}

/// What is wrong with a map of the given name whose lines have the lengths `map`, held
/// against an art whose lines have the lengths `art`; `None` where nothing is.
///
/// The number of lines is compared first. Where it is the same, the first line that
/// differs in length is reported, at the column where the shorter of the two ends.
pub open spec fn mismatch(art: Seq<nat>, map: Seq<nat>, file: String) -> Option<Diagnostic> {
    let line = first_difference(art, map);
    if map.len() < art.len() {
        Some(Diagnostic::UnexpectedEndOfFile { file, line: map.len() as usize })
    } else if map.len() > art.len() {
        Some(Diagnostic::ExpectedEndOfFile { file, line: art.len() as usize })
    } else if line == art.len() {
        None
    } else if map[line] > art[line] {
        Some(
            Diagnostic::UnexpectedEndOfLine {
                file,
                line: line as usize,
                column: art[line] as usize,
            },
        )
    } else {
        Some(
            Diagnostic::ExpectedEndOfLine { file, line: line as usize, column: map[line] as usize },
        )
    }
}

/// The codes of a map that fits: each of its characters, as a code that is present.
pub open spec fn as_codes(text: Seq<char>) -> Seq<Option<char>> {
    text.map_values(|c: char| Some(c))
}

/// The first line stops within the text, holds no newline, and stops at one unless it
/// stops at the end of the text.
pub proof fn lemma_line_end(text: Seq<char>)
    ensures
        0 <= line_end(text) <= text.len(),
        forall|j: int| 0 <= j < line_end(text) ==> text[j] != '\n',
        line_end(text) < text.len() ==> text[line_end(text)] == '\n',
    decreases text.len(),
{
    if text.len() == 0 || text[0] == '\n' {
    } else {
        lemma_line_end(text.drop_first());
        assert forall|j: int| 0 <= j < line_end(text) implies text[j] != '\n' by {
            if j > 0 {
                assert(text[j] == text.drop_first()[j - 1]);
            }
        }
    }
}

/// Two lists of lengths agree on every line before the first on which they differ, and
/// differ on that one, unless one of the lists ends there.
pub proof fn lemma_first_difference(art: Seq<nat>, map: Seq<nat>)
    ensures
        0 <= first_difference(art, map) <= art.len(),
        first_difference(art, map) <= map.len(),
        forall|j: int| 0 <= j < first_difference(art, map) ==> art[j] == map[j],
        first_difference(art, map) < art.len() && first_difference(art, map) < map.len()
            ==> art[first_difference(art, map)] != map[first_difference(art, map)],
    decreases art.len(),
{
    if art.len() == 0 || map.len() == 0 || art[0] != map[0] {
    } else {
        lemma_first_difference(art.drop_first(), map.drop_first());
        assert forall|j: int| 0 <= j < first_difference(art, map) implies art[j] == map[j] by {
            if j > 0 {
                assert(art[j] == art.drop_first()[j - 1]);
                assert(map[j] == map.drop_first()[j - 1]);
            }
        }
    }
}

/// From `start` on, where the first newline stands at `at`: the first line is what stands
/// between the two, and the other lines are those of what follows the newline.
pub proof fn lemma_lines_at_newline(text: Seq<char>, start: int, at: int)
    requires
        0 <= start <= at < text.len(),
        text[at] == '\n',
        forall|j: int| start <= j < at ==> text[j] != '\n',
    ensures
        lines(text.skip(start)) == seq![text.subrange(start, at)] + lines(text.skip(at + 1)),
{
    let rest = text.skip(start);
    lemma_line_end(rest);
    assert(line_end(rest) == at - start) by {
        assert(rest[at - start] == '\n');
        if line_end(rest) < at - start {
            assert(rest[line_end(rest)] == text[start + line_end(rest)]);
        }
    }
    assert(rest.skip(at - start + 1) == text.skip(at + 1));
    assert(rest.take(at - start) == text.subrange(start, at));
}

/// From `start` on, where no newline stands: what is left is one line, or none where
/// nothing is left.
pub proof fn lemma_lines_at_end(text: Seq<char>, start: int)
    requires
        0 <= start <= text.len(),
        forall|j: int| start <= j < text.len() ==> text[j] != '\n',
    ensures
        lines(text.skip(start)) == if start < text.len() {
            seq![text.skip(start)]
        } else {
            Seq::<Seq<char>>::empty()
        },
{
    lemma_line_end(text.skip(start));
}

/// The lengths of the lines of `text`.
pub fn measure_lines(text: &str) -> (lengths: Vec<usize>)
    ensures
        widths(lengths@) == line_lengths(text@),
{
    let chars = chars_of(text);
    let mut lengths: Vec<usize> = Vec::new();
    let mut start: usize = 0;
    let mut at: usize = 0;
    assert(chars@.skip(0) == chars@);
    while at < chars.len()
        invariant
            start <= at <= chars.len(),
            forall|j: int| start <= j < at ==> chars[j] != '\n',
            line_lengths(chars@) == widths(lengths@) + line_lengths(chars@.skip(start as int)),
        decreases chars.len() - at,
    {
        if chars[at] == '\n' {
            proof {
                lemma_lines_at_newline(chars@, start as int, at as int);
            }
            lengths.push(at - start);
            start = at + 1;
        }
        at += 1;
    }
    proof {
        lemma_lines_at_end(chars@, start as int);
    }
    if start < chars.len() {
        lengths.push(chars.len() - start);
    }
    lengths
}

/// The characters of each line.
pub open spec fn texts(lines: Seq<Vec<char>>) -> Seq<Seq<char>> {
    lines.map_values(|line: Vec<char>| line@)
}

/// The lines of `text`.
pub fn split_lines(text: &str) -> (found: Vec<Vec<char>>)
    ensures
        texts(found@) == lines(text@),
{
    let chars = chars_of(text);
    let mut found: Vec<Vec<char>> = Vec::new();
    let mut line: Vec<char> = Vec::new();
    let mut at: usize = 0;
    let ghost mut start: int = 0;
    assert(chars@.skip(0) == chars@);
    while at < chars.len()
        invariant
            0 <= start <= at <= chars.len(),
            forall|j: int| start <= j < at ==> chars[j] != '\n',
            line@ == chars@.subrange(start, at as int),
            lines(chars@) == texts(found@) + lines(chars@.skip(start)),
        decreases chars.len() - at,
    {
        let c = chars[at];
        if c == '\n' {
            proof {
                lemma_lines_at_newline(chars@, start, at as int);
            }
            found.push(line);
            line = Vec::new();
            proof {
                start = at + 1;
            }
        } else {
            line.push(c);
        }
        at += 1;
    }
    proof {
        lemma_lines_at_end(chars@, start);
    }
    if line.len() > 0 {
        found.push(line);
    }
    found
}

/// Holds a map against the art: `Ok` with the map's codes where it has the lines whose
/// lengths are given, and else what [`mismatch`] finds. The lengths do not tell how the
/// art ends, so the ends of the two texts are left to [`get_safe_contents`] and
/// [`check`].
pub fn compatible_with_ascii_art(
    ascii_art_line_lengths: &Vec<usize>,
    other_file_name: &String,
    other_file_contents: &str,
) -> (checked: Result<Vec<Option<char>>, Diagnostic>)
    ensures
        match checked {
            Ok(codes) => {
                &&& mismatch(
                    widths(ascii_art_line_lengths@),
                    line_lengths(other_file_contents@),
                    *other_file_name,
                ) is None
                &&& codes@ == as_codes(other_file_contents@)
            },
            Err(diagnostic) => mismatch(
                widths(ascii_art_line_lengths@),
                line_lengths(other_file_contents@),
                *other_file_name,
            ) == Some(diagnostic),
        },
{
    let other_file_line_lengths = measure_lines(other_file_contents);
    let nb_lines_ascii_art = ascii_art_line_lengths.len();
    let nb_lines_other_file = other_file_line_lengths.len();
    let ghost art = widths(ascii_art_line_lengths@);
    let ghost map = widths(other_file_line_lengths@);
    if nb_lines_ascii_art > nb_lines_other_file {
        return Err(
            Diagnostic::UnexpectedEndOfFile {
                file: other_file_name.clone(),
                line: nb_lines_other_file,
            },
        );
    }
    if nb_lines_ascii_art < nb_lines_other_file {
        return Err(
            Diagnostic::ExpectedEndOfFile {
                file: other_file_name.clone(),
                line: nb_lines_ascii_art,
            },
        );
    }
    let mut i: usize = 0;
    while i < nb_lines_ascii_art
        invariant
            i <= nb_lines_ascii_art,
            nb_lines_ascii_art == ascii_art_line_lengths.len(),
            nb_lines_ascii_art == other_file_line_lengths.len(),
            art == widths(ascii_art_line_lengths@),
            map == widths(other_file_line_lengths@),
            map == line_lengths(other_file_contents@),
            forall|j: int| 0 <= j < i ==> art[j] == map[j],
        decreases nb_lines_ascii_art - i,
    {
        let len_1 = ascii_art_line_lengths[i];
        let len_2 = other_file_line_lengths[i];
        if len_1 != len_2 {
            proof {
                lemma_first_difference(art, map);
                assert(art[i as int] != map[i as int]);
            }
            if len_1 < len_2 {
                return Err(
                    Diagnostic::UnexpectedEndOfLine {
                        file: other_file_name.clone(),
                        line: i,
                        column: len_1,
                    },
                );
            } else {
                return Err(
                    Diagnostic::ExpectedEndOfLine {
                        file: other_file_name.clone(),
                        line: i,
                        column: len_2,
                    },
                );
            }
        }
        i += 1;
    }
    proof {
        lemma_first_difference(art, map);
    }
    let chars = chars_of(other_file_contents);
    let mut codes: Vec<Option<char>> = Vec::new();
    let mut k: usize = 0;
    while k < chars.len()
        invariant
            k <= chars.len(),
            codes@ == as_codes(chars@.take(k as int)),
        decreases chars.len() - k,
    {
        codes.push(Some(chars[k]));
        k += 1;
    }
    Ok(codes)
}

/// Whether a text ends with a newline.
pub open spec fn ends_in_newline(text: Seq<char>) -> bool {
    text.len() > 0 && text.last() == '\n'
}

/// Whether a map stands against the art place by place: it is as long as the art and has
/// its newlines just where the art has them.
pub open spec fn is_aligned(art: Seq<char>, map: Seq<char>) -> bool {
    &&& art.len() == map.len()
    &&& forall|j: int| 0 <= j < art.len() ==> (art[j] == '\n' <==> map[j] == '\n')
}

/// What is wrong with the end of a map that has the art's lines; `None` where nothing is.
/// A map without the newline that the art ends with ends too early, and a map with a
/// newline more than the art goes on too long; either is a finding on the number of
/// lines, placed at the number of lines that both have.
pub open spec fn ending_mismatch(art: Seq<char>, map: Seq<char>, file: String) -> Option<
    Diagnostic,
> {
    if ends_in_newline(art) && !ends_in_newline(map) {
        Some(Diagnostic::UnexpectedEndOfFile { file, line: line_lengths(map).len() as usize })
    } else if !ends_in_newline(art) && ends_in_newline(map) {
        Some(Diagnostic::ExpectedEndOfFile { file, line: line_lengths(art).len() as usize })
    } else {
        None
    }
}

/// What is wrong with the map `map` of the given name, held against the art `art`;
/// `None` where nothing is. The lines are compared as [`mismatch`] says, and then the
/// ends of the two texts as [`ending_mismatch`] says.
pub open spec fn text_mismatch(art: Seq<char>, map: Seq<char>, file: String) -> Option<
    Diagnostic,
> {
    let found = mismatch(line_lengths(art), line_lengths(map), file);
    if found is Some {
        found
    } else {
        ending_mismatch(art, map, file)
    }
}

/// The lengths of the lines of a text, from the length of its first line and the lengths
/// of the lines of what follows it.
pub proof fn lemma_line_lengths_unfold(text: Seq<char>)
    ensures
        0 <= line_end(text) <= text.len(),
        line_lengths(text) == if text.len() == 0 {
            Seq::<nat>::empty()
        } else if line_end(text) < text.len() {
            seq![line_end(text) as nat] + line_lengths(text.skip(line_end(text) + 1))
        } else {
            seq![text.len()]
        },
{
    lemma_line_end(text);
}

/// A map that has the art's lines, as many and each as long, and ends with a newline
/// just when the art does, stands against the art place by place.
pub proof fn lemma_fitting_map_is_aligned(art: Seq<char>, map: Seq<char>)
    requires
        line_lengths(art) == line_lengths(map),
        ends_in_newline(art) == ends_in_newline(map),
    ensures
        is_aligned(art, map),
    decreases art.len(),
{
    lemma_line_lengths_unfold(art);
    lemma_line_lengths_unfold(map);
    lemma_line_end(art);
    lemma_line_end(map);
    let end = line_end(art);
    if art.len() > 0 && map.len() > 0 {
        assert(line_lengths(art)[0] == end);
        assert(line_lengths(map)[0] == line_end(map));
        assert(line_end(map) == end);
        let art_rest = art.skip(end + 1);
        let map_rest = map.skip(end + 1);
        if end < art.len() && end < map.len() {
            assert(line_lengths(art_rest) == line_lengths(art).skip(1));
            assert(line_lengths(map_rest) == line_lengths(map).skip(1));
            lemma_line_lengths_unfold(art_rest);
            lemma_line_lengths_unfold(map_rest);
            assert(art_rest.len() == 0 <==> map_rest.len() == 0);
            if art_rest.len() > 0 {
                assert(art.last() == art_rest.last());
                assert(map.last() == map_rest.last());
            }
            lemma_fitting_map_is_aligned(art_rest, map_rest);
            assert(art.len() == art_rest.len() + end + 1);
            assert(map.len() == map_rest.len() + end + 1);
            assert forall|j: int| 0 <= j < art.len() implies (art[j] == '\n' <==> map[j]
                == '\n') by {
                if j > end {
                    assert(art[j] == art_rest[j - end - 1]);
                    assert(map[j] == map_rest[j - end - 1]);
                }
            }
        } else if end < art.len() {
            lemma_line_lengths_unfold(art_rest);
            assert(line_lengths(art_rest).len() == 0);
            assert(art_rest.len() == 0);
            assert(art.last() == art[end]);
            assert(map.last() != '\n');
        } else if end < map.len() {
            lemma_line_lengths_unfold(map_rest);
            assert(line_lengths(map_rest).len() == 0);
            assert(map_rest.len() == 0);
            assert(map.last() == map[end]);
            assert(art.last() != '\n');
        }
    } else {
        assert(line_lengths(art).len() == 0 <==> art.len() == 0);
        assert(line_lengths(map).len() == 0 <==> map.len() == 0);
    }
}

/// A map that stands against the art place by place has the art's lines, and ends with a
/// newline just when the art does.
pub proof fn lemma_aligned_map_fits(art: Seq<char>, map: Seq<char>, file: String)
    requires
        is_aligned(art, map),
    ensures
        line_lengths(art) == line_lengths(map),
        ends_in_newline(art) == ends_in_newline(map),
        text_mismatch(art, map, file) is None,
    decreases art.len(),
{
    lemma_line_lengths_unfold(art);
    lemma_line_lengths_unfold(map);
    lemma_line_end(art);
    lemma_line_end(map);
    let end = line_end(art);
    assert(line_end(map) == end) by {
        if line_end(map) < end {
            assert(art[line_end(map)] != '\n');
        }
        if end < line_end(map) {
            assert(map[end] != '\n');
        }
    }
    if end < art.len() {
        let art_rest = art.skip(end + 1);
        let map_rest = map.skip(end + 1);
        assert forall|j: int| 0 <= j < art_rest.len() implies (art_rest[j] == '\n'
            <==> map_rest[j] == '\n') by {
            assert(art_rest[j] == art[j + end + 1]);
            assert(map_rest[j] == map[j + end + 1]);
        }
        lemma_aligned_map_fits(art_rest, map_rest, file);
    }
    lemma_first_difference(line_lengths(art), line_lengths(map));
}

pub(crate) fn ends_with_newline(text: &str) -> (yes: bool)
    ensures
        yes == ends_in_newline(text@),
{
    let chars = chars_of(text);
    chars.len() > 0 && chars[chars.len() - 1] == '\n'
}

/// Holds a map against an art of which the lengths of the lines and the ending are
/// known.
fn hold_against(
    ascii_art_line_lengths: &Vec<usize>,
    ascii_art_ends: bool,
    file_name: &String,
    file_contents: &str,
    Ghost(art): Ghost<Seq<char>>,
) -> (checked: Result<Vec<Option<char>>, Diagnostic>)
    requires
        widths(ascii_art_line_lengths@) == line_lengths(art),
        ascii_art_ends == ends_in_newline(art),
    ensures
        match checked {
            Ok(codes) => {
                &&& text_mismatch(art, file_contents@, *file_name) is None
                &&& is_aligned(art, file_contents@)
                &&& codes@ == as_codes(file_contents@)
            },
            Err(diagnostic) => text_mismatch(art, file_contents@, *file_name) == Some(diagnostic),
        },
{
    let codes = match compatible_with_ascii_art(ascii_art_line_lengths, file_name, file_contents) {
        Ok(codes) => codes,
        Err(diagnostic) => {
            return Err(diagnostic);
        },
    };
    proof {
        lemma_first_difference(line_lengths(art), line_lengths(file_contents@));
        assert(line_lengths(art) == line_lengths(file_contents@));
    }
    let file_ends = ends_with_newline(file_contents);
    if ascii_art_ends && !file_ends {
        Err(
            Diagnostic::UnexpectedEndOfFile {
                file: file_name.clone(),
                line: ascii_art_line_lengths.len(),
            },
        )
    } else if !ascii_art_ends && file_ends {
        Err(
            Diagnostic::ExpectedEndOfFile {
                file: file_name.clone(),
                line: ascii_art_line_lengths.len(),
            },
        )
    } else {
        proof {
            lemma_fitting_map_is_aligned(art, file_contents@);
        }
        Ok(codes)
    }
}

/// Holds the map of the given name against the art: `Ok` with the map's codes where
/// [`text_mismatch`] finds nothing wrong, and else what it finds. The codes of a map that
/// fits stand against the art place by place: there are as many codes as the art has
/// characters, and a code is a newline just where the art has one.
pub fn get_safe_contents(
    ascii_art_content: &String,
    file_name: &String,
    file_contents: &str,
) -> (checked: Result<Vec<Option<char>>, Diagnostic>)
    ensures
        match checked {
            Ok(codes) => {
                &&& text_mismatch(ascii_art_content@, file_contents@, *file_name) is None
                &&& codes@ == as_codes(file_contents@)
                &&& codes@.len() == ascii_art_content@.len()
                &&& forall|j: int|
                    0 <= j < codes@.len() ==> (codes@[j] == Some('\n') <==> ascii_art_content@[j]
                        == '\n')
            },
            Err(diagnostic) => text_mismatch(ascii_art_content@, file_contents@, *file_name)
                == Some(diagnostic),
        },
{
    let ascii_art_line_lengths = measure_lines(ascii_art_content.as_str());
    let ascii_art_ends = ends_with_newline(ascii_art_content.as_str());
    hold_against(
        &ascii_art_line_lengths,
        ascii_art_ends,
        file_name,
        file_contents,
        Ghost(ascii_art_content@),
    )
}

/// A map under the name it is reported by.
#[derive(Debug, PartialEq, Eq)]
pub struct NamedBuffer {
    pub name: String,
    pub contents: String,
}

impl NamedBuffer {
    /// What is wrong with this map, held against the art `canvas`; `None` where nothing
    /// is.
    pub open spec fn mismatch(&self, canvas: Seq<char>) -> Option<Diagnostic> {
        text_mismatch(canvas, self.contents@, self.name)
    }
}

/// Holds each map against the art, in order, and stops at the first that does not fit:
/// its finding is the error. Where all fit, the outcome is `Ok`, and every map stands
/// against the art place by place.
pub fn check(canvas: &str, maps: &Vec<NamedBuffer>) -> (checked: Result<(), Diagnostic>)
    ensures
        match checked {
            Ok(_) => forall|i: int|
                0 <= i < maps.len() ==> {
                    &&& (#[trigger] maps[i].mismatch(canvas@)) is None
                    &&& is_aligned(canvas@, maps[i].contents@)
                },
            Err(diagnostic) => exists|i: int|
                {
                    &&& 0 <= i < maps.len()
                    &&& (#[trigger] maps[i].mismatch(canvas@)) == Some(diagnostic)
                    &&& forall|j: int|
                        0 <= j < i ==> (#[trigger] maps[j].mismatch(canvas@)) is None
                },
        },
{
    let lengths = measure_lines(canvas);
    let ends = ends_with_newline(canvas);
    let mut i: usize = 0;
    while i < maps.len()
        invariant
            i <= maps.len(),
            widths(lengths@) == line_lengths(canvas@),
            ends == ends_in_newline(canvas@),
            forall|j: int|
                0 <= j < i ==> {
                    &&& (#[trigger] maps[j].mismatch(canvas@)) is None
                    &&& is_aligned(canvas@, maps[j].contents@)
                },
        decreases maps.len() - i,
    {
        let map = &maps[i];
        match hold_against(&lengths, ends, &map.name, map.contents.as_str(), Ghost(canvas@)) {
            Ok(_) => {},
            Err(diagnostic) => {
                assert(maps[i as int].mismatch(canvas@) == Some(diagnostic));
                return Err(diagnostic);
            },
        }
        assert(maps[i as int].mismatch(canvas@) is None);
        i += 1;
    }
    Ok(())
}

/// A text has no more lines than characters, and none of its lines is longer than it.
pub proof fn lemma_lines_fit(text: Seq<char>)
    ensures
        line_lengths(text).len() <= text.len(),
        forall|i: int| 0 <= i < line_lengths(text).len() ==> line_lengths(text)[i] <= text.len(),
    decreases text.len(),
{
    let end = line_end(text);
    lemma_line_end(text);
    if text.len() == 0 {
    } else if end < text.len() {
        let rest = text.skip(end + 1);
        lemma_lines_fit(rest);
        assert(line_lengths(text) == seq![text.take(end).len()] + line_lengths(rest));
    } else {
    }
}

/// A map with the art's lines, as many and each as long, that ends with a newline just
/// when the art does, fits it.
pub proof fn lemma_same_shape_fits(canvas: Seq<char>, map: Seq<char>, file: String)
    requires
        line_lengths(map) == line_lengths(canvas),
        ends_in_newline(map) == ends_in_newline(canvas),
    ensures
        text_mismatch(canvas, map, file) is None,
{
    lemma_first_difference(line_lengths(canvas), line_lengths(map));
}

/// A map with fewer lines than the art is found to end too early: the finding is a
/// mismatch of line counts, placed at the number of lines that the map has.
pub proof fn lemma_fewer_lines_found(canvas: Seq<char>, map: Seq<char>, file: String)
    requires
        map.len() <= usize::MAX,
        line_lengths(map).len() < line_lengths(canvas).len(),
    ensures
        text_mismatch(canvas, map, file) matches Some(
            Diagnostic::UnexpectedEndOfFile { file: name, line },
        ) && name == file && line == line_lengths(map).len(),
        text_mismatch(canvas, map, file)->0.spec_kind()
            == crate::diagnostic::Kind::LineCountMismatch,
{
    lemma_lines_fit(map);
}

/// Where art and map have as many lines, and the first line on which they differ is
/// longer in the map, the finding is a mismatch of line lengths, placed on that line at
/// the column where the art's line ends.
pub proof fn lemma_longer_line_found(canvas: Seq<char>, map: Seq<char>, file: String, i: int)
    requires
        canvas.len() <= usize::MAX,
        line_lengths(map).len() == line_lengths(canvas).len(),
        0 <= i < line_lengths(canvas).len(),
        line_lengths(map)[i] > line_lengths(canvas)[i],
        forall|j: int| 0 <= j < i ==> line_lengths(map)[j] == line_lengths(canvas)[j],
    ensures
        text_mismatch(canvas, map, file) matches Some(
            Diagnostic::UnexpectedEndOfLine { file: name, line, column },
        ) && name == file && line == i && column == line_lengths(canvas)[i],
        text_mismatch(canvas, map, file)->0.spec_kind()
            == crate::diagnostic::Kind::LineLengthMismatch,
{
    lemma_lines_fit(canvas);
    lemma_first_difference(line_lengths(canvas), line_lengths(map));
}

/// Where art and map have as many lines and some line is longer in the map, the finding
/// is a mismatch of line lengths, whichever line it is placed on.
pub proof fn lemma_some_longer_line_found(canvas: Seq<char>, map: Seq<char>, file: String, i: int)
    requires
        line_lengths(map).len() == line_lengths(canvas).len(),
        0 <= i < line_lengths(canvas).len(),
        line_lengths(map)[i] > line_lengths(canvas)[i],
    ensures
        text_mismatch(canvas, map, file) is Some,
        text_mismatch(canvas, map, file)->0.spec_kind()
            == crate::diagnostic::Kind::LineLengthMismatch,
{
    lemma_first_difference(line_lengths(canvas), line_lengths(map));
}

} // verus!
