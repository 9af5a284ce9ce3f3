use ascii_coloriser::cli::{finish, start, step, Action, ArgParserStates, Failure};
use ascii_coloriser::codes::{lookup_color, lookup_style, Color, Layer, Style};
use ascii_coloriser::compose::Output;
use ascii_coloriser::diagnostic::Diagnostic;
use ascii_coloriser::layout::get_safe_contents;
use ascii_coloriser::render::{render, FileContents};
use ascii_coloriser::text::{chars_of, push_decimal};

fn word(text: &str) -> String {
    String::from(text)
}

fn with_a_map() -> FileContents {
    let mut contents = FileContents::new(vec!['a']);
    contents.set_map(Layer::Foreground, vec![Some('1')]);
    contents
}

#[test]
fn four_words_are_enough() {
    assert_eq!(start(0), Err(Failure::TooFewArguments));
    assert_eq!(start(3), Err(Failure::TooFewArguments));
    assert_eq!(start(4), Ok(ArgParserStates::ReadingFlags));
    assert_eq!(start(9), Ok(ArgParserStates::ReadingFlags));
}

#[test]
fn a_flag_leads_to_its_state() {
    let start = ArgParserStates::ReadingFlags;
    assert_eq!(step(start, &word("-fg")), Ok((ArgParserStates::FgFile, Action::Proceed)));
    assert_eq!(step(start, &word("-bg")), Ok((ArgParserStates::BgFile, Action::Proceed)));
    assert_eq!(step(start, &word("-s")), Ok((ArgParserStates::StyleFile, Action::Proceed)));
    assert_eq!(step(start, &word("-o")), Ok((ArgParserStates::OutputFile, Action::Proceed)));
}

#[test]
fn anything_else_is_an_unknown_flag() {
    let start = ArgParserStates::ReadingFlags;
    assert_eq!(step(start, &word("-f")), Err(Failure::UnknownFlag(word("-f"))));
    assert_eq!(step(start, &word("-fgx")), Err(Failure::UnknownFlag(word("-fgx"))));
    assert_eq!(step(start, &word("map")), Err(Failure::UnknownFlag(word("map"))));
    assert_eq!(step(start, &word("")), Err(Failure::UnknownFlag(word(""))));
}

#[test]
fn a_name_after_a_flag_is_read_or_written() {
    let back = ArgParserStates::ReadingFlags;
    assert_eq!(
        step(ArgParserStates::FgFile, &word("a")),
        Ok((back, Action::ReadMap(Layer::Foreground, word("a"))))
    );
    assert_eq!(
        step(ArgParserStates::BgFile, &word("-fg")),
        Ok((back, Action::ReadMap(Layer::Background, word("-fg"))))
    );
    assert_eq!(
        step(ArgParserStates::StyleFile, &word("c")),
        Ok((back, Action::ReadMap(Layer::Style, word("c"))))
    );
    assert_eq!(
        step(ArgParserStates::OutputFile, &word("d")),
        Ok((back, Action::WriteTo(word("d"))))
    );
}

#[test]
fn the_line_may_end_only_where_a_flag_is_due() {
    assert_eq!(finish(ArgParserStates::ReadingFlags, &word("map"), &with_a_map()), Ok(()));
    assert_eq!(
        finish(ArgParserStates::FgFile, &word("-fg"), &with_a_map()),
        Err(Failure::MissingFileName(word("-fg")))
    );
    assert_eq!(
        finish(ArgParserStates::OutputFile, &word("-o"), &with_a_map()),
        Err(Failure::MissingFileName(word("-o")))
    );
}

#[test]
fn a_map_must_have_been_given() {
    let bare = FileContents::new(vec!['a', 'b']);
    assert_eq!(finish(ArgParserStates::ReadingFlags, &word("out"), &bare), Err(Failure::NoMaps));
    assert_eq!(
        finish(ArgParserStates::StyleFile, &word("-s"), &bare),
        Err(Failure::MissingFileName(word("-s")))
    );
}

#[test]
fn a_whole_command_line_is_read() {
    let words = ["-fg", "colors", "-o", "out", "-s", "styles"];
    let mut state = start(words.len() + 2).unwrap();
    let mut actions = Vec::new();
    for arg in words {
        let (next, action) = step(state, &word(arg)).unwrap();
        state = next;
        actions.push(action);
    }
    assert_eq!(state, ArgParserStates::ReadingFlags);
    assert_eq!(
        actions,
        vec![
            Action::Proceed,
            Action::ReadMap(Layer::Foreground, word("colors")),
            Action::Proceed,
            Action::WriteTo(word("out")),
            Action::Proceed,
            Action::ReadMap(Layer::Style, word("styles")),
        ]
    );
}

#[test]
fn each_class_of_failure_has_its_status() {
    let found = Diagnostic::UnexpectedEndOfFile { file: word("m"), line: 0 };
    assert_eq!(Failure::Incompatible(found).exit_code(), 1);
    assert_eq!(Failure::TooFewArguments.exit_code(), 2);
    assert_eq!(Failure::UnknownFlag(word("-x")).exit_code(), 3);
    assert_eq!(Failure::NoMaps.exit_code(), 4);
    assert_eq!(Failure::MissingFileName(word("-s")).exit_code(), 5);
    assert_eq!(Failure::NotWritten(word("denied")).exit_code(), 6);
}

#[test]
fn each_failure_has_its_message() {
    assert_eq!(Failure::UnknownFlag(word("-x")).message(), "Unknown flag `-x`");
    assert_eq!(
        Failure::MissingFileName(word("-s")).message(),
        "expected file name after flag `-s`"
    );
    assert_eq!(
        Failure::NotWritten(word("denied")).message(),
        "Error when writing render to output file : denied"
    );
    assert_eq!(
        Failure::NoMaps.message(),
        "No transformation maps have been given, did you forget them ?"
    );
    assert_eq!(
        Failure::TooFewArguments.message(),
        "Too few arguments were given, it needs at least an ascii artand a map file (preceded by the appropriate flag). Exemple :\n\n        \rascii_coloriser my_awesome_ascii_art -fg color_map"
    );
}

#[test]
fn colors_are_looked_up() {
    assert_eq!(lookup_color(None), Ok(None));
    assert_eq!(lookup_color(Some(' ')), Ok(None));
    assert_eq!(lookup_color(Some('-')), Ok(None));
    assert_eq!(lookup_color(Some('\n')), Ok(None));
    assert_eq!(lookup_color(Some('0')), Ok(Some(Color::Black)));
    assert_eq!(lookup_color(Some('5')), Ok(Some(Color::Purple)));
    assert_eq!(lookup_color(Some('9')), Ok(Some(Color::BrightRed)));
    assert_eq!(lookup_color(Some('f')), Ok(Some(Color::BrightWhite)));
    assert_eq!(lookup_color(Some('g')), Err('g'));
    assert_eq!(lookup_color(Some('F')), Err('F'));
}

#[test]
fn styles_are_looked_up() {
    assert_eq!(lookup_style(None), Ok(None));
    assert_eq!(lookup_style(Some('-')), Ok(None));
    assert_eq!(lookup_style(Some('1')), Ok(Some(Style::Bold)));
    assert_eq!(lookup_style(Some('5')), Ok(Some(Style::Blink)));
    assert_eq!(lookup_style(Some('6')), Ok(Some(Style::Blink)));
    assert_eq!(lookup_style(Some('7')), Ok(Some(Style::Reverse)));
    assert_eq!(lookup_style(Some('9')), Ok(Some(Style::Strikethrough)));
    assert_eq!(lookup_style(Some('0')), Err('0'));
    assert_eq!(lookup_style(Some('a')), Err('a'));
}

#[test]
fn numbers_are_written_in_base_ten() {
    let mut text = String::from("n=");
    push_decimal(&mut text, 0);
    text.push(',');
    push_decimal(&mut text, 9);
    text.push(',');
    push_decimal(&mut text, 10);
    text.push(',');
    push_decimal(&mut text, 107);
    text.push(',');
    push_decimal(&mut text, usize::MAX);
    assert_eq!(text, format!("n=0,9,10,107,{}", usize::MAX));
}

#[test]
fn a_text_is_its_characters() {
    assert_eq!(chars_of("aé\n█"), vec!['a', 'é', '\n', '█']);
    assert_eq!(chars_of(""), Vec::<char>::new());
}

#[test]
fn an_empty_art_with_an_empty_map_is_accepted() {
    let words = [word("prog"), word("art"), word("-fg"), word("map")];
    let art = word("");
    let mut state = start(words.len()).unwrap();
    let mut contents = FileContents::new(chars_of(&art));
    for arg in &words[2..] {
        let (next, action) = step(state, arg).unwrap();
        state = next;
        match action {
            Action::Proceed => (),
            Action::ReadMap(layer, name) => {
                let map = get_safe_contents(&art, &name, "").unwrap();
                contents.set_map(layer, map);
            }
            Action::WriteTo(name) => contents.output_file = Output::File(name),
        }
    }
    assert_eq!(finish(state, &words[3], &contents), Ok(()));
    assert_eq!(contents.ascii_art, Vec::<char>::new());
    assert_eq!(contents.fg_color_map, Vec::<Option<char>>::new());
    assert_eq!(contents.bg_color_map, Vec::<Option<char>>::new());
    assert_eq!(contents.style_map, Vec::<Option<char>>::new());
    assert_eq!(contents.output_file, Output::Stdout);
    assert_eq!(render(&contents), Ok(String::new()));
}

#[test]
fn a_map_of_blanks_is_a_map_that_was_given() {
    let art = word("a b\n");
    let mut contents = FileContents::new(chars_of(&art));
    let map = get_safe_contents(&art, &word("map"), "   \n").unwrap();
    contents.set_map(Layer::Style, map);
    assert_eq!(finish(ArgParserStates::ReadingFlags, &word("map"), &contents), Ok(()));
}
