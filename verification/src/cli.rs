//! Reading the command line: which argument is a flag, which a file's name, and what is
//! to be done with it. The files themselves are read by whoever drives this.

use vstd::prelude::*;

use crate::codes::{Color, Layer};
use crate::diagnostic::Diagnostic;
use crate::paint::{foreground_shown, paint_foreground};
use crate::render::FileContents;

verus! {

/// What the next argument is taken for.
#[derive(Clone, Copy, Debug, PartialEq, Eq, Structural)]
pub enum ArgParserStates {
    ReadingFlags,
    FgFile,
    BgFile,
    StyleFile,
    OutputFile,
}

/// What is to be done once an argument has been read.
#[derive(Debug, PartialEq, Eq)]
pub enum Action {
    /// Nothing yet: the argument was a flag.
    Proceed,
    /// The file of this name is to be read, held against the art, and taken as the map
    /// of this kind.
    ReadMap(Layer, String),
    /// The rendering is to go to the file of this name.
    WriteTo(String),
}

/// Why a run fails.
#[derive(Debug, PartialEq, Eq)]
pub enum Failure {
    /// The command line is too short to name an art and a map.
    TooFewArguments,
    /// An argument stands where a flag is due and is none.
    UnknownFlag(String),
    /// No map was given.
    NoMaps,
    /// The command line ends with this flag, whose file's name is missing.
    MissingFileName(String),
    /// A map does not fit the art.
    Incompatible(Diagnostic),
    /// The rendering was made and could not be written to its file, for the reason given.
    NotWritten(String),
}

/// The state that a flag leads to.
pub open spec fn flag(arg: Seq<char>) -> Option<ArgParserStates> {
    if arg == "-fg"@ {
        Some(ArgParserStates::FgFile)
    } else if arg == "-bg"@ {
        Some(ArgParserStates::BgFile)
    } else if arg == "-s"@ {
        Some(ArgParserStates::StyleFile)
    } else if arg == "-o"@ {
        Some(ArgParserStates::OutputFile)
    } else {
        None
    }
}

/// Where reading `arg` in the state `state` leads, and what is to be done then. Where a
/// flag is due, a flag leads to the state that waits for its file's name, and anything
/// else ends the run. Where a file's name is due, any argument is one, and a flag is due
/// next.
pub open spec fn after(state: ArgParserStates, arg: String) -> Result<
    (ArgParserStates, Action),
    Failure,
> {
    match state {
        ArgParserStates::ReadingFlags => match flag(arg@) {
            Some(next) => Ok((next, Action::Proceed)),
            None => Err(Failure::UnknownFlag(arg)),
        },
        ArgParserStates::FgFile => Ok(
            (ArgParserStates::ReadingFlags, Action::ReadMap(Layer::Foreground, arg)),
        ),
        ArgParserStates::BgFile => Ok(
            (ArgParserStates::ReadingFlags, Action::ReadMap(Layer::Background, arg)),
        ),
        ArgParserStates::StyleFile => Ok(
            (ArgParserStates::ReadingFlags, Action::ReadMap(Layer::Style, arg)),
        ),
        ArgParserStates::OutputFile => Ok((ArgParserStates::ReadingFlags, Action::WriteTo(arg))),
    }
}

/// Opens a command line of `count` words, the program's name among them: it must name
/// at least an art, a flag and a map. A flag is due first.
pub fn start(count: usize) -> (opened: Result<ArgParserStates, Failure>)
    ensures
        count >= 4 ==> opened == Ok::<ArgParserStates, Failure>(ArgParserStates::ReadingFlags),
        count < 4 ==> opened == Err::<ArgParserStates, Failure>(Failure::TooFewArguments),
{
    if count < 4 {
        Err(Failure::TooFewArguments)
    } else {
        Ok(ArgParserStates::ReadingFlags)
    }
}

fn is_text(arg: &String, text: &str) -> (same: bool)
    ensures
        same == (arg@ == text@),
{
    *arg == String::from_str(text)
}

/// Reads one argument in the given state: see [`after`].
pub fn step(state: ArgParserStates, arg: &String) -> (next: Result<
    (ArgParserStates, Action),
    Failure,
>)
    ensures
        next == after(state, *arg),
{
    match state {
        ArgParserStates::ReadingFlags => {
            if is_text(arg, "-fg") {
                Ok((ArgParserStates::FgFile, Action::Proceed))
            } else if is_text(arg, "-bg") {
                Ok((ArgParserStates::BgFile, Action::Proceed))
            } else if is_text(arg, "-s") {
                Ok((ArgParserStates::StyleFile, Action::Proceed))
            } else if is_text(arg, "-o") {
                Ok((ArgParserStates::OutputFile, Action::Proceed))
            } else {
                Err(Failure::UnknownFlag(arg.clone()))
            }
        },
        ArgParserStates::FgFile => Ok(
            (ArgParserStates::ReadingFlags, Action::ReadMap(Layer::Foreground, arg.clone())),
        ),
        ArgParserStates::BgFile => Ok(
            (ArgParserStates::ReadingFlags, Action::ReadMap(Layer::Background, arg.clone())),
        ),
        ArgParserStates::StyleFile => Ok(
            (ArgParserStates::ReadingFlags, Action::ReadMap(Layer::Style, arg.clone())),
        ),
        ArgParserStates::OutputFile => Ok(
            (ArgParserStates::ReadingFlags, Action::WriteTo(arg.clone())),
        ),
    }
}

/// Closes the command line after its last argument, when what it asked for has been
/// done. It may end only where a flag is due, and must have given a map, whatever the map
/// holds.
pub fn finish(state: ArgParserStates, last: &String, contents: &FileContents) -> (closed: Result<
    (),
    Failure,
>)
    ensures
        closed == if state != ArgParserStates::ReadingFlags {
            Err::<(), Failure>(Failure::MissingFileName(*last))
        } else if !contents.map_given {
            Err::<(), Failure>(Failure::NoMaps)
        } else {
            Ok::<(), Failure>(())
        },
{
    match state {
        ArgParserStates::ReadingFlags => {
            if contents.has_maps() {
                Ok(())
            } else {
                Err(Failure::NoMaps)
            }
        },
        _ => Err(Failure::MissingFileName(last.clone())),
    }
}

/// How to make a map that fits: the advice that follows the report of one that does not.
pub open spec fn hint_text() -> Seq<char> {
    ": use `bat ASCII_ART | sd -p '[^ ]' '-' > MAP_FILE`\nto generate templates. (works with fg/bg color maps and\nstyle maps, replace fullcaps names with your file's name)"@
}

/// What is said of a command line that is too short.
pub open spec fn usage_text() -> Seq<char> {
    "Too few arguments were given, it needs at least an ascii artand a map file (preceded by the appropriate flag). Exemple :\n\n        \rascii_coloriser my_awesome_ascii_art -fg color_map"@
}

impl Failure {
    /// The status that the process ends with: one for each class of failure.
    pub open spec fn spec_exit_code(&self) -> i32 {
        match *self {
            Failure::Incompatible(_) => 1,
            Failure::TooFewArguments => 2,
            Failure::UnknownFlag(_) => 3,
            Failure::NoMaps => 4,
            Failure::MissingFileName(_) => 5,
            Failure::NotWritten(_) => 6,
        }
    }

    /// What is said of the failure, given what the terminal library decided each time it
    /// was asked to paint. Only the report of a map that does not fit is painted: the
    /// finding's opening word and the map's name as in its own message, and the word that
    /// opens the advice in yellow.
    pub open spec fn message_shown(&self, error_on: bool, file_on: bool, hint_on: bool) -> Seq<
        char,
    > {
        match *self {
            Failure::TooFewArguments => usage_text(),
            Failure::UnknownFlag(arg) => "Unknown flag `"@ + arg@ + "`"@,
            Failure::NoMaps => "No transformation maps have been given, did you forget them ?"@,
            Failure::MissingFileName(flag) => "expected file name after flag `"@ + flag@ + "`"@,
            Failure::NotWritten(why) => "Error when writing render to output file : "@ + why@,
            Failure::Incompatible(diagnostic) => diagnostic.message_shown(error_on, file_on)
                + "\n\n"@ + (if hint_on {
                foreground_shown("Hint"@, Color::Yellow)
            } else {
                "Hint"@
            }) + hint_text(),
        }
    }

    /// The status that the process ends with.
    #[verifier::when_used_as_spec(spec_exit_code)]
    pub fn exit_code(&self) -> (code: i32)
        ensures
            code == self.spec_exit_code(),
    {
        match self {
            Failure::Incompatible(_) => 1,
            Failure::TooFewArguments => 2,
            Failure::UnknownFlag(_) => 3,
            Failure::NoMaps => 4,
            Failure::MissingFileName(_) => 5,
            Failure::NotWritten(_) => 6,
        }
    }

    /// What is to be said of the failure: one of the texts that
    /// [`Failure::message_shown`] allows, according to what the terminal library decides.
    pub fn message(&self) -> (text: String)
        ensures
            exists|error_on: bool, file_on: bool, hint_on: bool|
                text@ == #[trigger] self.message_shown(error_on, file_on, hint_on),
    {
        let mut text = String::new();
        match self {
            Failure::TooFewArguments => {
                text.append(
                    "Too few arguments were given, it needs at least an ascii artand a map file (preceded by the appropriate flag). Exemple :\n\n        \rascii_coloriser my_awesome_ascii_art -fg color_map",
                );
                assert(text@ == self.message_shown(false, false, false));
            },
            Failure::UnknownFlag(arg) => {
                text.append("Unknown flag `");
                text.append(arg.as_str());
                text.append("`");
                assert(text@ == self.message_shown(false, false, false));
            },
            Failure::NoMaps => {
                text.append("No transformation maps have been given, did you forget them ?");
                assert(text@ == self.message_shown(false, false, false));
            },
            Failure::MissingFileName(flag) => {
                text.append("expected file name after flag `");
                text.append(flag.as_str());
                text.append("`");
                assert(text@ == self.message_shown(false, false, false));
            },
            Failure::NotWritten(why) => {
                text.append("Error when writing render to output file : ");
                text.append(why.as_str());
                assert(text@ == self.message_shown(false, false, false));
            },
            Failure::Incompatible(diagnostic) => {
                let why = diagnostic.message();
                let hint = paint_foreground("Hint", Color::Yellow);
                text.append(why.as_str());
                text.append("\n\n");
                text.append(hint.as_str());
                text.append(
                    ": use `bat ASCII_ART | sd -p '[^ ]' '-' > MAP_FILE`\nto generate templates. (works with fg/bg color maps and\nstyle maps, replace fullcaps names with your file's name)",
                );
                proof {
                    let (error_on, file_on) = choose|error_on: bool, file_on: bool|
                        why@ == #[trigger] diagnostic.message_shown(error_on, file_on);
                    assert(text@ == self.message_shown(error_on, file_on, hint@ != "Hint"@));
                }
            },
        }
        text
    }
}

/// Two failures end the process with the same status just when they are of one class.
pub proof fn lemma_exit_codes_tell_classes_apart(a: Failure, b: Failure)
    ensures
        a.spec_exit_code() == b.spec_exit_code() <==> {
            ||| a is Incompatible && b is Incompatible
            ||| a is TooFewArguments && b is TooFewArguments
            ||| a is UnknownFlag && b is UnknownFlag
            ||| a is NoMaps && b is NoMaps
            ||| a is MissingFileName && b is MissingFileName
            ||| a is NotWritten && b is NotWritten
        },
{
}

} // verus!
