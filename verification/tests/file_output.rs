use ascii_coloriser::codes::Layer;
use ascii_coloriser::compose::{stylise_char, FormattedChar, Output};
use ascii_coloriser::diagnostic::{Diagnostic, Kind};
use ascii_coloriser::render::{render, FileContents};
use ascii_coloriser::text::chars_of;

fn file() -> Output {
    Output::File(String::from("out.txt"))
}

fn position(ascii: char, fg: Option<char>, bg: Option<char>, style: Option<char>) -> FormattedChar {
    FormattedChar { ascii, fg_color: fg, bg_color: bg, style }
}

fn codes(text: &str) -> Vec<Option<char>> {
    text.chars().map(Some).collect()
}

fn contents(art: &str, fg: Option<&str>, bg: Option<&str>, style: Option<&str>) -> FileContents {
    let mut contents = FileContents::new(chars_of(art));
    if let Some(map) = fg {
        contents.set_map(Layer::Foreground, codes(map));
    }
    if let Some(map) = bg {
        contents.set_map(Layer::Background, codes(map));
    }
    if let Some(map) = style {
        contents.set_map(Layer::Style, codes(map));
    }
    contents.output_file = file();
    contents
}

#[test]
fn style_comes_before_color() {
    let contents = contents("A\n", Some("1\n"), None, Some("9\n"));
    assert_eq!(render(&contents), Ok(String::from("\\e[9;31mA\\e[0m\\n")));
}

#[test]
fn a_position_without_codes_is_bare() {
    assert_eq!(stylise_char(&file(), position('A', None, None, None)), "A");
    assert_eq!(stylise_char(&file(), position('A', Some(' '), Some('-'), Some('\n'))), "A");
    assert_eq!(stylise_char(&file(), position('\\', Some('-'), None, Some(' '))), "\\");
}

#[test]
fn a_style_alone_has_no_semicolon() {
    assert_eq!(stylise_char(&file(), position('A', None, None, Some('4'))), "\\e[4mA\\e[0m");
    assert_eq!(
        stylise_char(&file(), position('x', Some('-'), Some(' '), Some('6'))),
        "\\e[6mx\\e[0m"
    );
}

#[test]
fn all_three_codes_in_order() {
    assert_eq!(
        stylise_char(&file(), position('#', Some('a'), Some('f'), Some('1'))),
        "\\e[1;92;107m#\\e[0m"
    );
    assert_eq!(
        stylise_char(&file(), position('#', Some('0'), Some('7'), None)),
        "\\e[30;47m#\\e[0m"
    );
    assert_eq!(
        stylise_char(&file(), position('#', None, Some('8'), Some('2'))),
        "\\e[2;100m#\\e[0m"
    );
}

#[test]
fn every_foreground_color_has_its_number() {
    let numbers = [30, 31, 32, 33, 34, 35, 36, 37, 90, 91, 92, 93, 94, 95, 96, 97];
    for (code, number) in "0123456789abcdef".chars().zip(numbers) {
        assert_eq!(
            stylise_char(&file(), position('A', Some(code), None, None)),
            format!("\\e[{}mA\\e[0m", number)
        );
    }
}

#[test]
fn every_background_color_has_its_number() {
    let numbers = [40, 41, 42, 43, 44, 45, 46, 47, 100, 101, 102, 103, 104, 105, 106, 107];
    for (code, number) in "0123456789abcdef".chars().zip(numbers) {
        assert_eq!(
            stylise_char(&file(), position('A', None, Some(code), None)),
            format!("\\e[{}mA\\e[0m", number)
        );
    }
}

#[test]
fn every_style_stands_for_itself() {
    for code in "123456789".chars() {
        assert_eq!(
            stylise_char(&file(), position('A', None, None, Some(code))),
            format!("\\e[{}mA\\e[0m", code)
        );
    }
}

#[test]
fn a_newline_is_written_out() {
    assert_eq!(stylise_char(&file(), position('\n', None, None, None)), "\\n");
    assert_eq!(stylise_char(&file(), position('\n', Some('1'), Some('2'), Some('3'))), "\\n");
    assert_eq!(stylise_char(&file(), position('\n', Some('z'), Some('?'), Some('0'))), "\\n");
}

#[test]
fn the_whole_art_is_rendered_in_order() {
    let contents = contents("ab\ncd\n", Some("1-\n 2\n"), Some("--\n-4\n"), Some("9-\n--\n"));
    assert_eq!(
        render(&contents),
        Ok(String::from("\\e[9;31ma\\e[0mb\\nc\\e[32;44md\\e[0m\\n"))
    );
}

#[test]
fn rendering_twice_gives_the_same() {
    let contents = contents("ab\ncd\n", Some("1-\n 2\n"), None, Some("9-\n--\n"));
    let first = render(&contents);
    let second = render(&contents);
    assert!(first.is_ok());
    assert_eq!(first, second);
}

#[test]
fn an_art_without_maps_is_copied() {
    let contents = contents("a b\n", None, None, None);
    assert_eq!(render(&contents), Ok(String::from("a b\\n")));
    assert!(!contents.has_maps());
}

#[test]
fn an_empty_art_renders_to_nothing() {
    let contents = contents("", None, None, None);
    assert_eq!(render(&contents), Ok(String::new()));
}

#[test]
fn every_position_of_the_art_is_rendered() {
    let contents = contents("abcd", Some("12"), Some("---"), None);
    assert_eq!(render(&contents), Ok(String::from("\\e[31ma\\e[0m\\e[32mb\\e[0mcd")));
    let contents = contents_with_long_maps();
    assert_eq!(render(&contents), Ok(String::from("\\e[31ma\\e[0m")));
}

fn contents_with_long_maps() -> FileContents {
    contents("a", Some("12"), Some("--x"), Some("--"))
}

#[test]
fn an_unknown_color_is_reported() {
    let contents = contents("ab", Some("1g"), None, None);
    let found = render(&contents).unwrap_err();
    assert_eq!(found, Diagnostic::UnknownCode { layer: Layer::Foreground, code: 'g' });
    assert_eq!(found.kind(), Kind::UnknownCode);
    assert_eq!(found.line(), None);
    assert_eq!(found.column(), None);
    assert_eq!(found.write_message("", ""), "unknown color code `g`");
    assert_eq!(found.message(), "unknown color code `g`");
}

#[test]
fn an_unknown_style_is_reported() {
    let contents = contents("ab", None, None, Some("10"));
    let found = render(&contents).unwrap_err();
    assert_eq!(found, Diagnostic::UnknownCode { layer: Layer::Style, code: '0' });
    assert_eq!(found.message(), "unknown style code `0`");
}

#[test]
fn a_file_looks_at_the_style_first() {
    let contents = contents("a", Some("x"), Some("y"), Some("z"));
    assert_eq!(
        render(&contents),
        Err(Diagnostic::UnknownCode { layer: Layer::Style, code: 'z' })
    );
    let contents = contents_without_style();
    assert_eq!(
        render(&contents),
        Err(Diagnostic::UnknownCode { layer: Layer::Foreground, code: 'x' })
    );
}

fn contents_without_style() -> FileContents {
    contents("a", Some("x"), Some("y"), Some("1"))
}

#[test]
fn the_first_position_with_an_unknown_code_is_reported() {
    let contents = contents("abc", Some("-A-"), Some("B--"), Some("--C"));
    assert_eq!(
        render(&contents),
        Err(Diagnostic::UnknownCode { layer: Layer::Background, code: 'B' })
    );
}

#[test]
fn codes_on_a_newline_are_not_looked_up() {
    let contents = contents("a\nb", Some("1x2"), Some("-y-"), Some("-z-"));
    assert_eq!(
        render(&contents),
        Ok(String::from("\\e[31ma\\e[0m\\n\\e[32mb\\e[0m"))
    );
}

#[test]
fn a_map_is_given_once_it_is_set() {
    let mut contents = FileContents::new(chars_of("ab"));
    assert!(!contents.has_maps());
    assert!(!contents.map_given);
    contents.set_map(Layer::Style, codes("--"));
    assert!(contents.has_maps());
    assert!(contents.map_given);
    assert_eq!(contents.fg_color_map, vec![None, None]);
    assert_eq!(contents.bg_color_map, vec![None, None]);
    assert_eq!(contents.style_map, vec![Some('-'), Some('-')]);
    assert_eq!(contents.output_file, Output::Stdout);
    assert_eq!(contents.output_file.clone(), Output::Stdout);
    assert_eq!(file().clone(), file());
}

#[test]
fn an_empty_map_is_a_map_that_was_given() {
    let mut contents = FileContents::new(Vec::new());
    assert!(!contents.has_maps());
    contents.set_map(Layer::Background, Vec::new());
    assert!(contents.has_maps());
    contents.output_file = file();
    assert_eq!(render(&contents), Ok(String::new()));
}
