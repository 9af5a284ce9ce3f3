use ascii_coloriser::cli::Failure;
use ascii_coloriser::codes::Layer;
use ascii_coloriser::compose::{stylise_char, FormattedChar, Output};
use ascii_coloriser::diagnostic::Diagnostic;
use ascii_coloriser::render::{render, FileContents};
use ascii_coloriser::text::chars_of;

fn position(ascii: char, fg: Option<char>, bg: Option<char>, style: Option<char>) -> FormattedChar {
    FormattedChar { ascii, fg_color: fg, bg_color: bg, style }
}

fn codes(text: &str) -> Vec<Option<char>> {
    text.chars().map(Some).collect()
}

fn colors_on() {
    colored::control::set_override(true);
}

#[test]
fn red_then_green_then_a_newline() {
    colors_on();
    let mut contents = FileContents::new(chars_of("AB\n"));
    contents.set_map(Layer::Foreground, codes("12\n"));
    assert_eq!(
        render(&contents),
        Ok(String::from("\u{1b}[31mA\u{1b}[0m\u{1b}[32mB\u{1b}[0m\n"))
    );
}

#[test]
fn every_foreground_color_is_painted() {
    colors_on();
    let numbers = [30, 31, 32, 33, 34, 35, 36, 37, 90, 91, 92, 93, 94, 95, 96, 97];
    for (code, number) in "0123456789abcdef".chars().zip(numbers) {
        assert_eq!(
            stylise_char(&Output::Stdout, position('A', Some(code), None, None)),
            format!("\u{1b}[{}mA\u{1b}[0m", number)
        );
    }
}

#[test]
fn every_background_color_is_painted() {
    colors_on();
    let numbers = [40, 41, 42, 43, 44, 45, 46, 47, 100, 101, 102, 103, 104, 105, 106, 107];
    for (code, number) in "0123456789abcdef".chars().zip(numbers) {
        assert_eq!(
            stylise_char(&Output::Stdout, position('A', None, Some(code), None)),
            format!("\u{1b}[{}mA\u{1b}[0m", number)
        );
    }
}

#[test]
fn every_style_is_painted() {
    colors_on();
    let numbers = [1, 2, 3, 4, 5, 5, 7, 8, 9];
    for (code, number) in "123456789".chars().zip(numbers) {
        assert_eq!(
            stylise_char(&Output::Stdout, position('A', None, None, Some(code))),
            format!("\u{1b}[{}mA\u{1b}[0m", number)
        );
    }
}

#[test]
fn paint_is_laid_over_paint() {
    colors_on();
    assert_eq!(
        stylise_char(&Output::Stdout, position('A', Some('1'), Some('2'), None)),
        "\u{1b}[42m\u{1b}[31mA\u{1b}[0m\u{1b}[42m\u{1b}[0m"
    );
    assert_eq!(
        stylise_char(&Output::Stdout, position('A', Some('1'), Some('2'), Some('1'))),
        "\u{1b}[1m\u{1b}[42m\u{1b}[31mA\u{1b}[0m\u{1b}[1m\u{1b}[42m\u{1b}[0m\u{1b}[1m\u{1b}[0m"
    );
}

#[test]
fn codes_that_ask_for_nothing_leave_the_character_bare() {
    colors_on();
    assert_eq!(stylise_char(&Output::Stdout, position('A', None, None, None)), "A");
    assert_eq!(stylise_char(&Output::Stdout, position('A', Some(' '), Some('-'), Some('\n'))), "A");
}

#[test]
fn a_newline_is_never_painted() {
    colors_on();
    assert_eq!(stylise_char(&Output::Stdout, position('\n', None, None, None)), "\n");
    assert_eq!(
        stylise_char(&Output::Stdout, position('\n', Some('1'), Some('2'), Some('3'))),
        "\n"
    );
    assert_eq!(stylise_char(&Output::Stdout, position('\n', Some('z'), None, None)), "\n");
}

#[test]
fn the_terminal_looks_at_the_foreground_first() {
    colors_on();
    let mut contents = FileContents::new(chars_of("a"));
    contents.set_map(Layer::Foreground, codes("x"));
    contents.set_map(Layer::Background, codes("y"));
    contents.set_map(Layer::Style, codes("z"));
    assert_eq!(
        render(&contents),
        Err(Diagnostic::UnknownCode { layer: Layer::Foreground, code: 'x' })
    );
    contents.set_map(Layer::Foreground, codes("1"));
    assert_eq!(
        render(&contents),
        Err(Diagnostic::UnknownCode { layer: Layer::Background, code: 'y' })
    );
    contents.set_map(Layer::Background, codes("1"));
    assert_eq!(
        render(&contents),
        Err(Diagnostic::UnknownCode { layer: Layer::Style, code: 'z' })
    );
}

#[test]
fn a_finding_is_shown_in_red_and_cyan() {
    colors_on();
    let found = Diagnostic::UnexpectedEndOfFile { file: String::from("maps/fg"), line: 1 };
    assert_eq!(
        found.message(),
        "\u{1b}[31mError\u{1b}[0m : unexpected EOF in file \u{1b}[36mmaps/fg\u{1b}[0m at line 1."
    );
}

#[test]
fn the_advice_opens_in_yellow() {
    colors_on();
    let found = Diagnostic::ExpectedEndOfLine { file: String::from("m"), line: 3, column: 14 };
    assert_eq!(
        Failure::Incompatible(found).message(),
        "\u{1b}[31mError\u{1b}[0m : expected end-of-line in file \u{1b}[36mm\u{1b}[0m at line 3, column 14.\n\n\u{1b}[33mHint\u{1b}[0m: use `bat ASCII_ART | sd -p '[^ ]' '-' > MAP_FILE`\nto generate templates. (works with fg/bg color maps and\nstyle maps, replace fullcaps names with your file's name)"
    );
}

#[test]
fn rendering_twice_paints_the_same() {
    colors_on();
    let mut contents = FileContents::new(chars_of("ab\ncd\n"));
    contents.set_map(Layer::Foreground, codes("1-\n 2\n"));
    contents.set_map(Layer::Style, codes("9-\n--\n"));
    let first = render(&contents);
    assert!(first.is_ok());
    assert_eq!(first, render(&contents));
}

#[test]
fn a_name_that_holds_a_reset_is_painted_through() {
    colors_on();
    let found = Diagnostic::ExpectedEndOfFile { file: String::from("a\u{1b}[0mb"), line: 2 };
    assert_eq!(
        found.message(),
        "\u{1b}[31mError\u{1b}[0m : expected EOF in file \u{1b}[36ma\u{1b}[0m\u{1b}[36mb\u{1b}[0m at line 2."
    );
}
