//! The choice between the two ways of holding a map against the art.

use vstd::prelude::*;

use crate::diagnostic::Diagnostic;
use crate::layout::{
    as_codes, check, ending_mismatch, ends_in_newline, ends_with_newline, get_safe_contents,
    is_aligned, lemma_fitting_map_is_aligned, lemma_same_shape_fits, line_lengths, lines,
    split_lines, text_mismatch, texts, NamedBuffer,
};
use crate::mask::{as_masked_codes, compatible_by_mask, lemma_fits_by_mask, mask, mask_mismatch};

verus! {

/// How a map is held against the art.
#[derive(Clone, Copy, Debug, PartialEq, Eq, Structural)]
pub enum Policy {
    /// The map has the art's lines, as many and each as long, and ends as the art does.
    ExactLength,
    /// The map has the art's lines, is blank just where the art is, a blank being a
    /// space, a tab or the marker named here, and ends as the art does.
    BlankMask { marker: char },
}

/// What is wrong with a map under a policy; `None` where nothing is. Under either policy
/// the ends of the two texts are compared once the lines have been found to fit.
pub open spec fn policy_mismatch(policy: Policy, art: Seq<char>, map: Seq<char>, file: String)
    -> Option<Diagnostic> {
    match policy {
        Policy::ExactLength => text_mismatch(art, map, file),
        Policy::BlankMask { marker } => {
            let found = mask_mismatch(lines(art), lines(map), marker, file);
            if found is Some {
                found
            } else {
                ending_mismatch(art, map, file)
            }
        },
    }
}

/// The codes of a map that fits under a policy.
pub open spec fn policy_codes(policy: Policy, map: Seq<char>) -> Seq<Option<char>> {
    match policy {
        Policy::ExactLength => as_codes(map),
        Policy::BlankMask { marker } => as_masked_codes(map, marker),
    }
}

/// Maps that reduce line by line to the masks of the art's lines have lines as long as
/// the art's.
pub proof fn lemma_masked_lines_are_as_long(
    art: Seq<char>,
    map: Seq<char>,
    marker: char,
    file: String,
)
    requires
        mask_mismatch(lines(art), lines(map), marker, file) is None,
    ensures
        line_lengths(art) == line_lengths(map),
{
    lemma_fits_by_mask(lines(art), lines(map), marker, file);
    assert forall|i: int| 0 <= i < lines(map).len() implies line_lengths(art)[i] == line_lengths(
        map,
    )[i] by {
        assert(mask(lines(art)[i], marker).len() == mask(lines(map)[i], marker).len());
    }
}

/// Holds a map against an art of which the lines and the ending are known, under the
/// blank-mask policy.
fn hold_against_mask(
    ascii_art_lines: &Vec<Vec<char>>,
    ascii_art_ends: bool,
    file_name: &String,
    file_contents: &str,
    marker: char,
    Ghost(art): Ghost<Seq<char>>,
) -> (checked: Result<Vec<Option<char>>, Diagnostic>)
    requires
        texts(ascii_art_lines@) == lines(art),
        ascii_art_ends == ends_in_newline(art),
    ensures
        match checked {
            Ok(codes) => {
                &&& policy_mismatch(Policy::BlankMask { marker }, art, file_contents@, *file_name)
                    is None
                &&& is_aligned(art, file_contents@)
                &&& codes@ == as_masked_codes(file_contents@, marker)
            },
            Err(diagnostic) => policy_mismatch(
                Policy::BlankMask { marker },
                art,
                file_contents@,
                *file_name,
            ) == Some(diagnostic),
        },
{
    let codes = match compatible_by_mask(ascii_art_lines, file_name, file_contents, marker) {
        Ok(codes) => codes,
        Err(diagnostic) => {
            return Err(diagnostic);
        },
    };
    proof {
        lemma_masked_lines_are_as_long(art, file_contents@, marker, *file_name);
        assert(line_lengths(art).len() == lines(art).len());
    }
    let file_ends = ends_with_newline(file_contents);
    if ascii_art_ends && !file_ends {
        Err(
            Diagnostic::UnexpectedEndOfFile {
                file: file_name.clone(),
                line: ascii_art_lines.len(),
            },
        )
    } else if !ascii_art_ends && file_ends {
        Err(Diagnostic::ExpectedEndOfFile { file: file_name.clone(), line: ascii_art_lines.len() })
    } else {
        proof {
            lemma_fitting_map_is_aligned(art, file_contents@);
        }
        Ok(codes)
    }
}

/// Holds the map of the given name against the art under the policy: `Ok` with the map's
/// codes where nothing is wrong, and else what [`policy_mismatch`] finds. The codes of a
/// map that fits stand against the art place by place: there are as many codes as the art
/// has characters, and a code is a newline just where the art has one.
pub fn get_safe_contents_with(
    policy: Policy,
    ascii_art_content: &String,
    file_name: &String,
    file_contents: &str,
) -> (checked: Result<Vec<Option<char>>, Diagnostic>)
    ensures
        match checked {
            Ok(codes) => {
                &&& policy_mismatch(policy, ascii_art_content@, file_contents@, *file_name) is None
                &&& codes@ == policy_codes(policy, file_contents@)
                &&& codes@.len() == ascii_art_content@.len()
                &&& forall|j: int|
                    0 <= j < codes@.len() ==> (codes@[j] == Some('\n') <==> ascii_art_content@[j]
                        == '\n')
            },
            Err(diagnostic) => policy_mismatch(
                policy,
                ascii_art_content@,
                file_contents@,
                *file_name,
            ) == Some(diagnostic),
        },
{
    match policy {
        Policy::ExactLength => get_safe_contents(ascii_art_content, file_name, file_contents),
        Policy::BlankMask { marker } => {
            let ascii_art_lines = split_lines(ascii_art_content.as_str());
            let ascii_art_ends = ends_with_newline(ascii_art_content.as_str());
            hold_against_mask(
                &ascii_art_lines,
                ascii_art_ends,
                file_name,
                file_contents,
                marker,
                Ghost(ascii_art_content@),
            )
        },
    }
}

/// What is wrong with a named map under a policy, held against the art `canvas`; `None`
/// where nothing is.
pub open spec fn buffer_mismatch(policy: Policy, canvas: Seq<char>, map: NamedBuffer) -> Option<
    Diagnostic,
> {
    policy_mismatch(policy, canvas, map.contents@, map.name)
}

/// Holds each map against the art under the policy, in order, and stops at the first
/// that does not fit: its finding is the error. Where all fit, the outcome is `Ok`, and
/// every map stands against the art place by place.
pub fn check_with(policy: Policy, canvas: &str, maps: &Vec<NamedBuffer>) -> (checked: Result<
    (),
    Diagnostic,
>)
    ensures
        match checked {
            Ok(_) => forall|i: int|
                0 <= i < maps.len() ==> {
                    &&& (#[trigger] buffer_mismatch(policy, canvas@, maps[i])) is None
                    &&& is_aligned(canvas@, maps[i].contents@)
                },
            Err(diagnostic) => exists|i: int|
                {
                    &&& 0 <= i < maps.len()
                    &&& (#[trigger] buffer_mismatch(policy, canvas@, maps[i])) == Some(diagnostic)
                    &&& forall|j: int|
                        0 <= j < i ==> (#[trigger] buffer_mismatch(policy, canvas@, maps[j]))
                            is None
                },
        },
{
    match policy {
        Policy::ExactLength => {
            let checked = check(canvas, maps);
            proof {
                assert forall|i: int| 0 <= i < maps.len() implies (#[trigger] buffer_mismatch(
                    policy,
                    canvas@,
                    maps[i],
                )) == maps[i].mismatch(canvas@) by {}
                if checked is Err {
                    let diagnostic = checked->Err_0;
                    let i = choose|i: int|
                        {
                            &&& 0 <= i < maps.len()
                            &&& (#[trigger] maps[i].mismatch(canvas@)) == Some(diagnostic)
                            &&& forall|j: int|
                                0 <= j < i ==> (#[trigger] maps[j].mismatch(canvas@)) is None
                        };
                    assert(buffer_mismatch(policy, canvas@, maps[i]) == Some(diagnostic));
                }
            }
            checked
        },
        Policy::BlankMask { marker } => {
            let canvas_lines = split_lines(canvas);
            let canvas_ends = ends_with_newline(canvas);
            let mut i: usize = 0;
            while i < maps.len()
                invariant
                    i <= maps.len(),
                    policy == (Policy::BlankMask { marker }),
                    texts(canvas_lines@) == lines(canvas@),
                    canvas_ends == ends_in_newline(canvas@),
                    forall|j: int|
                        0 <= j < i ==> {
                            &&& (#[trigger] buffer_mismatch(policy, canvas@, maps[j])) is None
                            &&& is_aligned(canvas@, maps[j].contents@)
                        },
                decreases maps.len() - i,
            {
                let map = &maps[i];
                match hold_against_mask(
                    &canvas_lines,
                    canvas_ends,
                    &map.name,
                    map.contents.as_str(),
                    marker,
                    Ghost(canvas@),
                ) {
                    Ok(_) => {},
                    Err(diagnostic) => {
                        assert(buffer_mismatch(policy, canvas@, maps[i as int]) == Some(
                            diagnostic,
                        ));
                        return Err(diagnostic);
                    },
                }
                assert(buffer_mismatch(policy, canvas@, maps[i as int]) is None);
                i += 1;
            }
            Ok(())
        },
    }
}

/// A map that fits under the blank-mask policy fits under the policy of exact lengths.
pub proof fn lemma_mask_is_stricter(art: Seq<char>, map: Seq<char>, marker: char, file: String)
    requires
        policy_mismatch(Policy::BlankMask { marker }, art, map, file) is None,
    ensures
        policy_mismatch(Policy::ExactLength, art, map, file) is None,
{
    lemma_masked_lines_are_as_long(art, map, marker, file);
    lemma_same_shape_fits(art, map, file);
}

} // verus!
