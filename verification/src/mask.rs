//! The blank-mask policy: a map fits the art when it is blank just where the art is blank,
//! whatever the characters are that stand elsewhere.

use vstd::prelude::*;

use crate::codes::{color_of, lookup_color};
use crate::diagnostic::Diagnostic;
use crate::layout::{lines, split_lines, texts};
use crate::text::chars_of;

verus! {

/// A character that holds no glyph: a space, a tab, or the marker designated to stand
/// for one.
pub open spec fn is_blank(c: char, marker: char) -> bool {
    c == ' ' || c == '\t' || c == marker
}

/// A character that may stand in a map: a blank, a dash, or one that selects a color
/// (the characters that select a style are among these).
pub open spec fn is_marker(c: char, marker: char) -> bool {
    is_blank(c, marker) || c == '-' || color_of(c) is Some
}

/// A line reduced to where its glyphs are: `true` for a glyph, `false` for a blank.
pub open spec fn mask(line: Seq<char>, marker: char) -> Seq<bool> {
    line.map_values(|c: char| !is_blank(c, marker))
}

/// Whether the map's character does not go with the art's character in the same column:
/// it marks nothing, or one of the two is blank and the other is not.
pub open spec fn is_fault(art: char, map: char, marker: char) -> bool {
    !is_marker(map, marker) || is_blank(art, marker) != is_blank(map, marker)
}

/// The first column from `from` on in which the two lines do not go together; the length
/// of the shorter line where there is none.
pub open spec fn first_fault(art: Seq<char>, map: Seq<char>, marker: char, from: int) -> int
    decreases art.len() - from,
{
    if from < 0 || from >= art.len() || from >= map.len() || is_fault(
        art[from],
        map[from],
        marker,
    ) {
        from
    } else {
        first_fault(art, map, marker, from + 1)
    }
}

/// Whether a line of the map does not go with the line of the art: in some column, or
/// because one of the two ends before the other.
pub open spec fn is_faulty_line(art: Seq<char>, map: Seq<char>, marker: char) -> bool {
    first_fault(art, map, marker, 0) < art.len() || art.len() != map.len()
}

/// What is wrong with a line of the map, held against the line of the art; `None` where
/// nothing is. The first column that does not go together is reported: for a character
/// that marks nothing, then for a glyph marked where the art is blank, then for a blank
/// where the art has a glyph. Where every column that both lines have goes together, the
/// line that ends before the other is reported as under the policy of exact lengths.
pub open spec fn line_fault(
    art: Seq<char>,
    map: Seq<char>,
    marker: char,
    file: String,
    line: usize,
) -> Option<Diagnostic> {
    let column = first_fault(art, map, marker, 0);
    if column < art.len() && column < map.len() {
        if !is_marker(map[column], marker) {
            Some(
                Diagnostic::UnrecognizedMarker {
                    file,
                    line,
                    column: column as usize,
                    code: map[column],
                },
            )
        } else if is_blank(art[column], marker) {
            Some(Diagnostic::ExpectedBlank { file, line, column: column as usize })
        } else {
            Some(Diagnostic::UnexpectedBlank { file, line, column: column as usize })
        }
    } else if map.len() > art.len() {
        Some(Diagnostic::UnexpectedEndOfLine { file, line, column: art.len() as usize })
    } else if map.len() < art.len() {
        Some(Diagnostic::ExpectedEndOfLine { file, line, column: map.len() as usize })
    } else {
        None
    }
}

/// The first line from `from` on that does not go with the art's; the number of lines of
/// the shorter text where there is none.
pub open spec fn first_faulty_line(
    art: Seq<Seq<char>>,
    map: Seq<Seq<char>>,
    marker: char,
    from: int,
) -> int
    decreases art.len() - from,
{
    if from < 0 || from >= art.len() || from >= map.len() || is_faulty_line(
        art[from],
        map[from],
        marker,
    ) {
        from
    } else {
        first_faulty_line(art, map, marker, from + 1)
    }
}

/// What is wrong with a map of the given name and lines, held against the lines of the
/// art; `None` where nothing is. The number of lines is compared first, then the lines
/// one by one: see [`line_fault`].
pub open spec fn mask_mismatch(
    art: Seq<Seq<char>>,
    map: Seq<Seq<char>>,
    marker: char,
    file: String,
) -> Option<Diagnostic> {
    let line = first_faulty_line(art, map, marker, 0);
    if map.len() < art.len() {
        Some(Diagnostic::UnexpectedEndOfFile { file, line: map.len() as usize })
    } else if map.len() > art.len() {
        Some(Diagnostic::ExpectedEndOfFile { file, line: art.len() as usize })
    } else if line < art.len() {
        line_fault(art[line], map[line], marker, file, line as usize)
    } else {
        None
    }
}

/// The codes of a map that fits under this policy: each of its characters as a code that
/// is present, a blank as the space it stands for. A newline stays a newline.
pub open spec fn as_masked_codes(text: Seq<char>, marker: char) -> Seq<Option<char>> {
    text.map_values(
        |c: char|
            if c != '\n' && is_blank(c, marker) {
                Some(' ')
            } else {
                Some(c)
            },
    )
}

fn blank(c: char, marker: char) -> (yes: bool)
    ensures
        yes == is_blank(c, marker),
{
    c == ' ' || c == '\t' || c == marker
}

fn marks(c: char, marker: char) -> (yes: bool)
    ensures
        yes == is_marker(c, marker),
{
    if blank(c, marker) || c == '-' {
        true
    } else {
        match lookup_color(Some(c)) {
            Ok(Some(_)) => true,
            _ => false,
        }
    }
}

fn check_line(art: &Vec<char>, map: &Vec<char>, marker: char, file: &String, line: usize) -> (found:
    Option<Diagnostic>)
    ensures
        found == line_fault(art@, map@, marker, *file, line),
{
    let mut column: usize = 0;
    while column < art.len() && column < map.len()
        invariant
            column <= art.len(),
            column <= map.len(),
            first_fault(art@, map@, marker, 0) == first_fault(art@, map@, marker, column as int),
        decreases art.len() - column,
    {
        let here = art[column];
        let code = map[column];
        if !marks(code, marker) {
            return Some(
                Diagnostic::UnrecognizedMarker { file: file.clone(), line, column, code },
            );
        }
        if blank(here, marker) != blank(code, marker) {
            if blank(here, marker) {
                return Some(Diagnostic::ExpectedBlank { file: file.clone(), line, column });
            } else {
                return Some(Diagnostic::UnexpectedBlank { file: file.clone(), line, column });
            }
        }
        column += 1;
    }
    if map.len() > art.len() {
        Some(Diagnostic::UnexpectedEndOfLine { file: file.clone(), line, column: art.len() })
    } else if map.len() < art.len() {
        Some(Diagnostic::ExpectedEndOfLine { file: file.clone(), line, column: map.len() })
    } else {
        None
    }
}

/// Holds a map against the lines of the art under the blank-mask policy: `Ok` with the
/// map's codes where nothing is wrong, and else what [`mask_mismatch`] finds. The lines
/// do not tell how the art ends, so the ends of the two texts are left to the functions
/// that choose the policy.
pub fn compatible_by_mask(
    ascii_art_lines: &Vec<Vec<char>>,
    other_file_name: &String,
    other_file_contents: &str,
    marker: char,
) -> (checked: Result<Vec<Option<char>>, Diagnostic>)
    ensures
        match checked {
            Ok(codes) => {
                &&& mask_mismatch(
                    texts(ascii_art_lines@),
                    lines(other_file_contents@),
                    marker,
                    *other_file_name,
                ) is None
                &&& codes@ == as_masked_codes(other_file_contents@, marker)
            },
            Err(diagnostic) => mask_mismatch(
                texts(ascii_art_lines@),
                lines(other_file_contents@),
                marker,
                *other_file_name,
            ) == Some(diagnostic),
        },
{
    let other_file_lines = split_lines(other_file_contents);
    let count = ascii_art_lines.len();
    let ghost art = texts(ascii_art_lines@);
    let ghost map = texts(other_file_lines@);
    if count > other_file_lines.len() {
        return Err(
            Diagnostic::UnexpectedEndOfFile {
                file: other_file_name.clone(),
                line: other_file_lines.len(),
            },
        );
    }
    if count < other_file_lines.len() {
        return Err(Diagnostic::ExpectedEndOfFile { file: other_file_name.clone(), line: count });
    }
    let mut i: usize = 0;
    while i < count
        invariant
            i <= count,
            count == ascii_art_lines.len(),
            count == other_file_lines.len(),
            art == texts(ascii_art_lines@),
            map == texts(other_file_lines@),
            map == lines(other_file_contents@),
            first_faulty_line(art, map, marker, 0) == first_faulty_line(art, map, marker, i as int),
        decreases count - i,
    {
        match check_line(&ascii_art_lines[i], &other_file_lines[i], marker, other_file_name, i) {
            Some(diagnostic) => {
                return Err(diagnostic);
            },
            None => {},
        }
        i += 1;
    }
    let chars = chars_of(other_file_contents);
    let mut codes: Vec<Option<char>> = Vec::new();
    let mut k: usize = 0;
    while k < chars.len()
        invariant
            k <= chars.len(),
            codes@ == as_masked_codes(chars@.take(k as int), marker),
        decreases chars.len() - k,
    {
        let c = chars[k];
        codes.push(
            if c != '\n' && blank(c, marker) {
                Some(' ')
            } else {
                Some(c)
            },
        );
        k += 1;
    }
    Ok(codes)
}

/// From `from` on, the columns before the first that does not go together do, and that
/// column does not, unless one of the lines ends there.
pub proof fn lemma_first_fault(art: Seq<char>, map: Seq<char>, marker: char, from: int)
    requires
        0 <= from <= art.len(),
        from <= map.len(),
    ensures
        from <= first_fault(art, map, marker, from) <= art.len(),
        first_fault(art, map, marker, from) <= map.len(),
        forall|j: int|
            from <= j < first_fault(art, map, marker, from) ==> !is_fault(
                #[trigger] art[j],
                map[j],
                marker,
            ),
        first_fault(art, map, marker, from) < art.len() && first_fault(art, map, marker, from)
            < map.len() ==> is_fault(
            art[first_fault(art, map, marker, from)],
            map[first_fault(art, map, marker, from)],
            marker,
        ),
    decreases art.len() - from,
{
    if from < art.len() && from < map.len() && !is_fault(art[from], map[from], marker) {
        lemma_first_fault(art, map, marker, from + 1);
    }
}

/// From `from` on, the lines before the first that does not go with the art's do, and
/// that line does not, unless one of the texts ends there.
pub proof fn lemma_first_faulty_line(
    art: Seq<Seq<char>>,
    map: Seq<Seq<char>>,
    marker: char,
    from: int,
)
    requires
        0 <= from <= art.len(),
        from <= map.len(),
    ensures
        from <= first_faulty_line(art, map, marker, from) <= art.len(),
        first_faulty_line(art, map, marker, from) <= map.len(),
        forall|i: int|
            from <= i < first_faulty_line(art, map, marker, from) ==> !is_faulty_line(
                #[trigger] art[i],
                map[i],
                marker,
            ),
        first_faulty_line(art, map, marker, from) < art.len() && first_faulty_line(
            art,
            map,
            marker,
            from,
        ) < map.len() ==> is_faulty_line(
            art[first_faulty_line(art, map, marker, from)],
            map[first_faulty_line(art, map, marker, from)],
            marker,
        ),
    decreases art.len() - from,
{
    if from < art.len() && from < map.len() && !is_faulty_line(art[from], map[from], marker) {
        lemma_first_faulty_line(art, map, marker, from + 1);
    }
}

/// A line of the map goes with the line of the art just when all its characters are
/// markers and the two lines reduce to the same mask.
pub proof fn lemma_line_goes_by_mask(art: Seq<char>, map: Seq<char>, marker: char)
    ensures
        !is_faulty_line(art, map, marker) <==> {
            &&& mask(art, marker) == mask(map, marker)
            &&& forall|j: int| 0 <= j < map.len() ==> is_marker(#[trigger] map[j], marker)
        },
{
    lemma_first_fault(art, map, marker, 0);
    let column = first_fault(art, map, marker, 0);
    if !is_faulty_line(art, map, marker) {
        assert forall|j: int| 0 <= j < map.len() implies is_marker(#[trigger] map[j], marker) by {
            assert(!is_fault(art[j], map[j], marker));
        }
        assert(mask(art, marker) == mask(map, marker));
    }
    if mask(art, marker) == mask(map, marker) && (forall|j: int|
        0 <= j < map.len() ==> is_marker(#[trigger] map[j], marker)) {
        assert(map.len() == mask(map, marker).len());
        if column < art.len() {
            assert(mask(art, marker)[column] == mask(map, marker)[column]);
        }
    }
}

/// A map fits under the blank-mask policy just when it has as many lines as the art,
/// all its characters are markers, and each of its lines reduces to the mask of the
/// art's line.
pub proof fn lemma_fits_by_mask(
    art: Seq<Seq<char>>,
    map: Seq<Seq<char>>,
    marker: char,
    file: String,
)
    ensures
        mask_mismatch(art, map, marker, file) is None <==> {
            &&& art.len() == map.len()
            &&& forall|i: int|
                0 <= i < map.len() ==> mask(art[i], marker) == mask(#[trigger] map[i], marker)
            &&& forall|i: int, j: int|
                0 <= i < map.len() && 0 <= j < map[i].len() ==> is_marker(
                    #[trigger] map[i][j],
                    marker,
                )
        },
{
    if art.len() == map.len() {
        lemma_first_faulty_line(art, map, marker, 0);
        let line = first_faulty_line(art, map, marker, 0);
        if mask_mismatch(art, map, marker, file) is None {
            assert forall|i: int| 0 <= i < map.len() implies mask(art[i], marker) == mask(
                #[trigger] map[i],
                marker,
            ) by {
                assert(!is_faulty_line(art[i], map[i], marker));
                lemma_line_goes_by_mask(art[i], map[i], marker);
            }
            assert forall|i: int, j: int|
                0 <= i < map.len() && 0 <= j < map[i].len() implies is_marker(
                #[trigger] map[i][j],
                marker,
            ) by {
                assert(!is_faulty_line(art[i], map[i], marker));
                lemma_line_goes_by_mask(art[i], map[i], marker);
            }
        }
        if line < art.len() {
            lemma_line_goes_by_mask(art[line], map[line], marker);
        }
    }
}

} // verus!
