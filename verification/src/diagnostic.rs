//! What is reported when a map does not fit the art, or holds a code that no table knows.

use vstd::prelude::*;

use crate::codes::{Color, Layer};
use crate::paint::{foreground_shown, paint_foreground};
use crate::text::{decimal, push_decimal};

verus! {

/// The classes of finding.
#[derive(Clone, Copy, Debug, PartialEq, Eq, Structural)]
pub enum Kind {
    LineCountMismatch,
    LineLengthMismatch,
    BlankMismatch,
    UnknownCode,
}

/// A finding, with the place it was made at. Lines and columns count from zero.
#[derive(Debug, PartialEq, Eq)]
pub enum Diagnostic {
    /// The map has fewer lines than the art: `line` lines.
    UnexpectedEndOfFile { file: String, line: usize },
    /// The map has more lines than the art, which has `line` lines.
    ExpectedEndOfFile { file: String, line: usize },
    /// The map's line goes on where the art's line has ended, after `column` characters.
    UnexpectedEndOfLine { file: String, line: usize, column: usize },
    /// The map's line ends after `column` characters, before the art's line does.
    ExpectedEndOfLine { file: String, line: usize, column: usize },
    /// The map marks a glyph where the art is blank.
    ExpectedBlank { file: String, line: usize, column: usize },
    /// The map is blank where the art has a glyph.
    UnexpectedBlank { file: String, line: usize, column: usize },
    /// The map holds a character that marks nothing.
    UnrecognizedMarker { file: String, line: usize, column: usize, code: char },
    /// A map of the given kind holds a character that its table does not know.
    UnknownCode { layer: Layer, code: char },
}

impl Clone for Diagnostic {
    fn clone(&self) -> (copy: Diagnostic)
        ensures
            copy == *self,
    {
        match self {
            Diagnostic::UnexpectedEndOfFile { file, line } => Diagnostic::UnexpectedEndOfFile {
                file: file.clone(),
                line: *line,
            },
            Diagnostic::ExpectedEndOfFile { file, line } => Diagnostic::ExpectedEndOfFile {
                file: file.clone(),
                line: *line,
            },
            Diagnostic::UnexpectedEndOfLine { file, line, column } => {
                Diagnostic::UnexpectedEndOfLine { file: file.clone(), line: *line, column: *column }
            },
            Diagnostic::ExpectedEndOfLine { file, line, column } => {
                Diagnostic::ExpectedEndOfLine { file: file.clone(), line: *line, column: *column }
            },
            Diagnostic::ExpectedBlank { file, line, column } => Diagnostic::ExpectedBlank {
                file: file.clone(),
                line: *line,
                column: *column,
            },
            Diagnostic::UnexpectedBlank { file, line, column } => Diagnostic::UnexpectedBlank {
                file: file.clone(),
                line: *line,
                column: *column,
            },
            Diagnostic::UnrecognizedMarker { file, line, column, code } => {
                Diagnostic::UnrecognizedMarker {
                    file: file.clone(),
                    line: *line,
                    column: *column,
                    code: *code,
                }
            },
            Diagnostic::UnknownCode { layer, code } => Diagnostic::UnknownCode {
                layer: *layer,
                code: *code,
            },
        }
    }
}

impl Diagnostic {
    /// The class of the finding.
    pub open spec fn spec_kind(&self) -> Kind {
        match *self {
            Diagnostic::UnexpectedEndOfFile { .. } => Kind::LineCountMismatch,
            Diagnostic::ExpectedEndOfFile { .. } => Kind::LineCountMismatch,
            Diagnostic::UnexpectedEndOfLine { .. } => Kind::LineLengthMismatch,
            Diagnostic::ExpectedEndOfLine { .. } => Kind::LineLengthMismatch,
            Diagnostic::ExpectedBlank { .. } => Kind::BlankMismatch,
            Diagnostic::UnexpectedBlank { .. } => Kind::BlankMismatch,
            Diagnostic::UnrecognizedMarker { .. } => Kind::UnknownCode,
            Diagnostic::UnknownCode { .. } => Kind::UnknownCode,
        }
    }

    /// The name of the map that the finding is about; empty for an unknown code.
    pub open spec fn file_name(&self) -> Seq<char> {
        match *self {
            Diagnostic::UnexpectedEndOfFile { file, .. } => file@,
            Diagnostic::ExpectedEndOfFile { file, .. } => file@,
            Diagnostic::UnexpectedEndOfLine { file, .. } => file@,
            Diagnostic::ExpectedEndOfLine { file, .. } => file@,
            Diagnostic::ExpectedBlank { file, .. } => file@,
            Diagnostic::UnexpectedBlank { file, .. } => file@,
            Diagnostic::UnrecognizedMarker { file, .. } => file@,
            Diagnostic::UnknownCode { .. } => seq![],
        }
    }

    /// The line that the finding is placed on, or the number of lines where it is about
    /// that; none for an unknown code.
    pub open spec fn spec_line(&self) -> Option<usize> {
        match *self {
            Diagnostic::UnexpectedEndOfFile { line, .. } => Some(line),
            Diagnostic::ExpectedEndOfFile { line, .. } => Some(line),
            Diagnostic::UnexpectedEndOfLine { line, .. } => Some(line),
            Diagnostic::ExpectedEndOfLine { line, .. } => Some(line),
            Diagnostic::ExpectedBlank { line, .. } => Some(line),
            Diagnostic::UnexpectedBlank { line, .. } => Some(line),
            Diagnostic::UnrecognizedMarker { line, .. } => Some(line),
            Diagnostic::UnknownCode { .. } => None,
        }
    }

    /// The column that the finding is placed in, where it is placed in one.
    pub open spec fn spec_column(&self) -> Option<usize> {
        match *self {
            Diagnostic::UnexpectedEndOfFile { .. } => None,
            Diagnostic::ExpectedEndOfFile { .. } => None,
            Diagnostic::UnexpectedEndOfLine { column, .. } => Some(column),
            Diagnostic::ExpectedEndOfLine { column, .. } => Some(column),
            Diagnostic::ExpectedBlank { column, .. } => Some(column),
            Diagnostic::UnexpectedBlank { column, .. } => Some(column),
            Diagnostic::UnrecognizedMarker { column, .. } => Some(column),
            Diagnostic::UnknownCode { .. } => None,
        }
    }

    /// The message of the finding, where `error` stands for the word that opens it and
    /// `file` for the map's name.
    pub open spec fn message_text(&self, error: Seq<char>, file: Seq<char>) -> Seq<char> {
        match *self {
            Diagnostic::UnexpectedEndOfFile { line, .. } => error + " : unexpected EOF in file "@
                + file + " at line "@ + decimal(line as nat) + "."@,
            Diagnostic::ExpectedEndOfFile { line, .. } => error + " : expected EOF in file "@
                + file + " at line "@ + decimal(line as nat) + "."@,
            Diagnostic::UnexpectedEndOfLine { line, column, .. } => error
                + " : unexpected end-of-line in file "@ + file + " at line "@ + decimal(
                line as nat,
            ) + ", column "@ + decimal(column as nat) + "."@,
            Diagnostic::ExpectedEndOfLine { line, column, .. } => error
                + " : expected end-of-line in file "@ + file + " at line "@ + decimal(
                line as nat,
            ) + ", column "@ + decimal(column as nat) + "."@,
            Diagnostic::ExpectedBlank { line, column, .. } => error + " : expected blank in file "@
                + file + " at line "@ + decimal(line as nat) + ", column "@ + decimal(
                column as nat,
            ) + "."@,
            Diagnostic::UnexpectedBlank { line, column, .. } => error
                + " : unexpected blank in file "@ + file + " at line "@ + decimal(line as nat)
                + ", column "@ + decimal(column as nat) + "."@,
            Diagnostic::UnrecognizedMarker { line, column, code, .. } => (error
                + " : unrecognized marker character `"@).push(code) + "` in file "@ + file
                + " at line "@ + decimal(line as nat) + ", column "@ + decimal(column as nat)
                + "."@,
            Diagnostic::UnknownCode { layer, code } => (if layer == Layer::Style {
                "unknown style code `"@
            } else {
                "unknown color code `"@
            }).push(code) + "`"@,
        }
    }

    /// The message as the terminal gets it, given what the terminal library decided each
    /// time it was asked to paint: the opening word in red, the map's name in cyan.
    pub open spec fn message_shown(&self, error_on: bool, file_on: bool) -> Seq<char> {
        self.message_text(
            if error_on {
                foreground_shown("Error"@, Color::Red)
            } else {
                "Error"@
            },
            if file_on {
                foreground_shown(self.file_name(), Color::Cyan)
            } else {
                self.file_name()
            },
        )
    }

    /// The class of the finding.
    #[verifier::when_used_as_spec(spec_kind)]
    pub fn kind(&self) -> (kind: Kind)
        ensures
            kind == self.spec_kind(),
    {
        match self {
            Diagnostic::UnexpectedEndOfFile { .. } => Kind::LineCountMismatch,
            Diagnostic::ExpectedEndOfFile { .. } => Kind::LineCountMismatch,
            Diagnostic::UnexpectedEndOfLine { .. } => Kind::LineLengthMismatch,
            Diagnostic::ExpectedEndOfLine { .. } => Kind::LineLengthMismatch,
            Diagnostic::ExpectedBlank { .. } => Kind::BlankMismatch,
            Diagnostic::UnexpectedBlank { .. } => Kind::BlankMismatch,
            Diagnostic::UnrecognizedMarker { .. } => Kind::UnknownCode,
            Diagnostic::UnknownCode { .. } => Kind::UnknownCode,
        }
    }

    /// The line that the finding is placed on, or the number of lines where it is about
    /// that; none for an unknown code.
    #[verifier::when_used_as_spec(spec_line)]
    pub fn line(&self) -> (line: Option<usize>)
        ensures
            line == self.spec_line(),
    {
        match self {
            Diagnostic::UnexpectedEndOfFile { line, .. } => Some(*line),
            Diagnostic::ExpectedEndOfFile { line, .. } => Some(*line),
            Diagnostic::UnexpectedEndOfLine { line, .. } => Some(*line),
            Diagnostic::ExpectedEndOfLine { line, .. } => Some(*line),
            Diagnostic::ExpectedBlank { line, .. } => Some(*line),
            Diagnostic::UnexpectedBlank { line, .. } => Some(*line),
            Diagnostic::UnrecognizedMarker { line, .. } => Some(*line),
            Diagnostic::UnknownCode { .. } => None,
        }
    }

    /// The column that the finding is placed in, where it is placed in one.
    #[verifier::when_used_as_spec(spec_column)]
    pub fn column(&self) -> (column: Option<usize>)
        ensures
            column == self.spec_column(),
    {
        match self {
            Diagnostic::UnexpectedEndOfFile { .. } => None,
            Diagnostic::ExpectedEndOfFile { .. } => None,
            Diagnostic::UnexpectedEndOfLine { column, .. } => Some(*column),
            Diagnostic::ExpectedEndOfLine { column, .. } => Some(*column),
            Diagnostic::ExpectedBlank { column, .. } => Some(*column),
            Diagnostic::UnexpectedBlank { column, .. } => Some(*column),
            Diagnostic::UnrecognizedMarker { column, .. } => Some(*column),
            Diagnostic::UnknownCode { .. } => None,
        }
    }

    /// Writes the message around the two given texts: the word that opens it and the
    /// map's name, each as it is to be shown.
    pub fn write_message(&self, error: &str, file: &str) -> (text: String)
        ensures
            text@ == self.message_text(error@, file@),
    {
        let mut text = String::new();
        match self {
            Diagnostic::UnexpectedEndOfFile { line, .. } => {
                text.append(error);
                text.append(" : unexpected EOF in file ");
                text.append(file);
                text.append(" at line ");
                push_decimal(&mut text, *line);
                text.append(".");
            },
            Diagnostic::ExpectedEndOfFile { line, .. } => {
                text.append(error);
                text.append(" : expected EOF in file ");
                text.append(file);
                text.append(" at line ");
                push_decimal(&mut text, *line);
                text.append(".");
            },
            Diagnostic::UnexpectedEndOfLine { line, column, .. } => {
                text.append(error);
                text.append(" : unexpected end-of-line in file ");
                text.append(file);
                text.append(" at line ");
                push_decimal(&mut text, *line);
                text.append(", column ");
                push_decimal(&mut text, *column);
                text.append(".");
            },
            Diagnostic::ExpectedEndOfLine { line, column, .. } => {
                text.append(error);
                text.append(" : expected end-of-line in file ");
                text.append(file);
                text.append(" at line ");
                push_decimal(&mut text, *line);
                text.append(", column ");
                push_decimal(&mut text, *column);
                text.append(".");
            },
            Diagnostic::ExpectedBlank { line, column, .. } => {
                text.append(error);
                text.append(" : expected blank in file ");
                text.append(file);
                text.append(" at line ");
                push_decimal(&mut text, *line);
                text.append(", column ");
                push_decimal(&mut text, *column);
                text.append(".");
            },
            Diagnostic::UnexpectedBlank { line, column, .. } => {
                text.append(error);
                text.append(" : unexpected blank in file ");
                text.append(file);
                text.append(" at line ");
                push_decimal(&mut text, *line);
                text.append(", column ");
                push_decimal(&mut text, *column);
                text.append(".");
            },
            Diagnostic::UnrecognizedMarker { line, column, code, .. } => {
                text.append(error);
                text.append(" : unrecognized marker character `");
                text.push(*code);
                text.append("` in file ");
                text.append(file);
                text.append(" at line ");
                push_decimal(&mut text, *line);
                text.append(", column ");
                push_decimal(&mut text, *column);
                text.append(".");
            },
            Diagnostic::UnknownCode { layer, code } => {
                match layer {
                    Layer::Style => text.append("unknown style code `"),
                    _ => text.append("unknown color code `"),
                }
                text.push(*code);
                text.append("`");
            },
        }
        text
    }

    /// The message as the terminal is to get it: one of the texts that
    /// [`Diagnostic::message_shown`] allows, according to what the terminal library
    /// decides.
    pub fn message(&self) -> (text: String)
        ensures
            exists|error_on: bool, file_on: bool|
                text@ == #[trigger] self.message_shown(error_on, file_on),
    {
        match self {
            Diagnostic::UnexpectedEndOfFile { file, .. }
            | Diagnostic::ExpectedEndOfFile { file, .. }
            | Diagnostic::UnexpectedEndOfLine { file, .. }
            | Diagnostic::ExpectedEndOfLine { file, .. }
            | Diagnostic::ExpectedBlank { file, .. }
            | Diagnostic::UnexpectedBlank { file, .. }
            | Diagnostic::UnrecognizedMarker { file, .. } => {
                let error = paint_foreground("Error", Color::Red);
                let name = paint_foreground(file.as_str(), Color::Cyan);
                let text = self.write_message(error.as_str(), name.as_str());
                assert(text@ == self.message_shown(error@ != "Error"@, name@ != file@));
                text
            },
            Diagnostic::UnknownCode { .. } => {
                let text = self.write_message("", "");
                assert(text@ == self.message_shown(false, false));
                text
            },
        }
    }
}

} // verus!
