use ascii_coloriser::cli::Failure;
use ascii_coloriser::codes::Layer;
use ascii_coloriser::compose::{stylise_char, FormattedChar, Output};
use ascii_coloriser::diagnostic::Diagnostic;
use ascii_coloriser::render::{render, FileContents};
use ascii_coloriser::text::chars_of;

fn codes(text: &str) -> Vec<Option<char>> {
    text.chars().map(Some).collect()
}

fn colors_off() {
    colored::control::set_override(false);
}

#[test]
fn without_colors_the_art_comes_back() {
    colors_off();
    let mut contents = FileContents::new(chars_of("AB\nCD\n"));
    contents.set_map(Layer::Foreground, codes("12\n34\n"));
    contents.set_map(Layer::Background, codes("ab\ncd\n"));
    contents.set_map(Layer::Style, codes("12\n-9\n"));
    assert_eq!(render(&contents), Ok(String::from("AB\nCD\n")));
}

#[test]
fn without_colors_a_character_stays_bare() {
    colors_off();
    let ch =
        FormattedChar { ascii: 'A', fg_color: Some('1'), bg_color: Some('2'), style: Some('3') };
    assert_eq!(stylise_char(&Output::Stdout, ch), "A");
}

#[test]
fn without_colors_unknown_codes_are_still_reported() {
    colors_off();
    let mut contents = FileContents::new(chars_of("AB"));
    contents.set_map(Layer::Background, codes("1G"));
    assert_eq!(
        render(&contents),
        Err(Diagnostic::UnknownCode { layer: Layer::Background, code: 'G' })
    );
}

#[test]
fn without_colors_a_finding_is_plain() {
    colors_off();
    let found = Diagnostic::ExpectedEndOfFile { file: String::from("maps/bg"), line: 7 };
    assert_eq!(found.message(), "Error : expected EOF in file maps/bg at line 7.");
    assert_eq!(
        Failure::Incompatible(found).message(),
        "Error : expected EOF in file maps/bg at line 7.\n\nHint: use `bat ASCII_ART | sd -p '[^ ]' '-' > MAP_FILE`\nto generate templates. (works with fg/bg color maps and\nstyle maps, replace fullcaps names with your file's name)"
    );
}
