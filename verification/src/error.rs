//! What can go wrong while lexing, and how it is shown.

use vstd::prelude::*;
use crate::characters::to_text;
use crate::text::extend;
use crate::characters::to_chars;
use crate::tokens::token::{location_text, Location, LocationView};

verus! {

/// A labelled span of one source line, in characters counted from zero.
pub struct Marker {
    pub start: usize,
    pub end: usize,
    pub label: String,
}

impl View for Marker {
    type V = (int, int, Seq<char>);

    open spec fn view(&self) -> (int, int, Seq<char>) {
        (self.start as int, self.end as int, self.label@)
    }
}

/// A span that a line of `length` characters can show: inside the line, or
/// the one place just behind it.
pub open spec fn span_fits(start: int, end: int, length: int) -> bool {
    0 <= start <= end && (end <= length || (start == length && end == length + 1))
}

/// A line of source: it holds no line feed.
pub open spec fn single_line(line: Seq<char>) -> bool {
    forall|i: int| 0 <= i < line.len() ==> line[i] != '\n'
}

/// The text that annotate-snippets renders, without styling, for a snippet
/// that is titled as an error with the given `id` and `title`, and holds one
/// slice: the `source` line with its number and its `origin`, annotated with an
/// error marker and a help marker.
pub uninterp spec fn rendered_snippet(
    id: Seq<char>,
    title: Seq<char>,
    origin: Seq<char>,
    line_number: int,
    source: Seq<char>,
    error: (int, int, Seq<char>),
    help: (int, int, Seq<char>),
) -> Seq<char>;

/// Renders a snippet with `annotate_snippets::Renderer::plain().render(..)`.
/// The result is the text of the snippet described at `rendered_snippet`. The
/// renderer panics on a marker that ends more than one place behind the
/// source, and subtracts a marker's start from its end; with a line feed in
/// the source it splits lines and draws markers across them. The contract
/// leaves those inputs out, and those on which counting lines would overflow.
#[verifier::external_body]
fn render(
    id: &str,
    title: &str,
    origin: &str,
    line_number: usize,
    source: &str,
    error: &Marker,
    help: &Marker,
) -> (rendered: String)
    requires
        line_number < usize::MAX,
        single_line(source@),
        span_fits(error.start as int, error.end as int, source@.len() as int),
        span_fits(help.start as int, help.end as int, source@.len() as int),
    ensures
        rendered@ == rendered_snippet(
            id@,
            title@,
            origin@,
            line_number as int,
            source@,
            error@,
            help@,
        ),
{
    let kind = annotate_snippets::AnnotationType::Error;
    let title = annotate_snippets::Annotation { id: Some(id), label: Some(title), annotation_type: kind };
    let first = annotate_snippets::SourceAnnotation { range: (error.start, error.end), label: error.label.as_str(), annotation_type: kind };
    let hint = annotate_snippets::AnnotationType::Help;
    let second = annotate_snippets::SourceAnnotation { range: (help.start, help.end), label: help.label.as_str(), annotation_type: hint };
    let slice = annotate_snippets::Slice { source, line_start: line_number, origin: Some(origin), annotations: vec![first, second], fold: false };
    let snippet = annotate_snippets::Snippet { title: Some(title), footer: Vec::new(), slices: vec![slice] };
    annotate_snippets::Renderer::plain().render(snippet).to_string()
}

/// The kinds of error that lexing can end with. Each carries where it
/// happened and a rendered message that shows the line and what to do.
#[derive(Clone, Debug, PartialEq, Eq, Hash, PartialOrd, Ord)]
pub enum LexerError {
    /// A run of mark characters that spells no mark.
    InvalidMark { location: Location, error: String },
    /// A character that can start no token.
    UnexpectedCharacter { character: char, location: Location, error: String },
    /// A block comment without its closing `*/`.
    UnterminatedComment { location: Location, error: String },
    /// A quoted literal without its closing quote.
    UnterminatedString { location: Location, error: String },
}

/// An error as contracts see it.
pub enum LexerErrorView {
    InvalidMark { location: LocationView, error: Seq<char> },
    UnexpectedCharacter { character: char, location: LocationView, error: Seq<char> },
    UnterminatedComment { location: LocationView, error: Seq<char> },
    UnterminatedString { location: LocationView, error: Seq<char> },
}

impl View for LexerError {
    type V = LexerErrorView;

    open spec fn view(&self) -> LexerErrorView {
        match self {
            LexerError::InvalidMark { location, error } => LexerErrorView::InvalidMark {
                location: location@,
                error: error@,
            },
            LexerError::UnexpectedCharacter {
                character,
                location,
                error,
            } => LexerErrorView::UnexpectedCharacter {
                character: *character,
                location: location@,
                error: error@,
            },
            LexerError::UnterminatedComment {
                location,
                error,
            } => LexerErrorView::UnterminatedComment { location: location@, error: error@ },
            LexerError::UnterminatedString {
                location,
                error,
            } => LexerErrorView::UnterminatedString { location: location@, error: error@ },
        }
    }
}

impl LexerErrorView {
    /// Where the error happened.
    pub open spec fn location(self) -> LocationView {
        match self {
            LexerErrorView::InvalidMark { location, .. } => location,
            LexerErrorView::UnexpectedCharacter { location, .. } => location,
            LexerErrorView::UnterminatedComment { location, .. } => location,
            LexerErrorView::UnterminatedString { location, .. } => location,
        }
    }

    /// The rendered message.
    pub open spec fn rendered(self) -> Seq<char> {
        match self {
            LexerErrorView::InvalidMark { error, .. } => error,
            LexerErrorView::UnexpectedCharacter { error, .. } => error,
            LexerErrorView::UnterminatedComment { error, .. } => error,
            LexerErrorView::UnterminatedString { error, .. } => error,
        }
    }
}

/// Whether a location can be shown on a line: the line is one line, the
/// column lies in it or just behind it, and both the line number and the
/// columns can be counted on from.
pub open spec fn shows(location: LocationView, line: Seq<char>) -> bool {
    &&& single_line(line)
    &&& line.len() < usize::MAX
    &&& location.line < usize::MAX
    &&& 1 <= location.column <= line.len() + 1
}

/// The hint that asks for a closing quote.
pub open spec fn add_quote_hint(quote_type: char) -> Seq<char> {
    "Add `"@.push(quote_type) + "` here"@
}

/// The error for a run of mark characters, from the location's column up to
/// `end`, that spells no mark.
pub open spec fn invalid_mark(location: LocationView, line: Seq<char>, end: int) -> LexerErrorView {
    LexerErrorView::InvalidMark {
        location,
        error: rendered_snippet(
            "E0001"@,
            "Syntax error"@,
            location.file,
            location.line,
            line,
            (location.column - 1, end, "Invalid mark"@),
            (location.column - 1, end, "Replace it with a valid mark"@),
        ),
    }
}

/// The error for a character that can start no token.
pub open spec fn unexpected_character(
    location: LocationView,
    character: char,
    line: Seq<char>,
) -> LexerErrorView {
    LexerErrorView::UnexpectedCharacter {
        character,
        location,
        error: rendered_snippet(
            "E0001"@,
            "Syntax error"@,
            location.file,
            location.line,
            line,
            (location.column - 1, location.column, "Unexpected character"@),
            (location.column - 1, location.column, "Remove this character"@),
        ),
    }
}

/// The error for a block comment that starts at the location and is not
/// closed.
pub open spec fn unterminated_comment(location: LocationView, line: Seq<char>) -> LexerErrorView {
    LexerErrorView::UnterminatedComment {
        location,
        error: rendered_snippet(
            "E0001"@,
            "Syntax error"@,
            location.file,
            location.line,
            line,
            (location.column - 1, line.len() as int, "Unterminated comment"@),
            (line.len() as int, line.len() as int + 1, "Add `*/` to close the comment"@),
        ),
    }
}

/// The error for a quoted literal that starts at the location and runs to the
/// end of its line. Where the line ends in an escaped quote, the hint is to
/// remove the backslash; else it is to add the quote.
pub open spec fn unterminated_string(
    location: LocationView,
    line: Seq<char>,
    quote_type: char,
    escaped: bool,
) -> LexerErrorView {
    LexerErrorView::UnterminatedString {
        location,
        error: rendered_snippet(
            "E0002"@,
            "Unterminated string literal"@,
            location.file,
            location.line,
            line,
            (location.column - 1, location.column as int, "String starts here"@),
            if escaped {
                (line.len() as int - 2, line.len() as int - 1, "Remove the `\\` here"@)
            } else {
                (line.len() as int, line.len() as int + 1, add_quote_hint(quote_type))
            },
        ),
    }
}

/// The one-line description of an error: what it is, and where.
pub open spec fn description(error: LexerErrorView) -> Seq<char> {
    match error {
        LexerErrorView::InvalidMark { location, .. } => "invalid mark at "@ + location_text(location),
        LexerErrorView::UnexpectedCharacter {
            character,
            location,
            ..
        } => "unexpected character `"@.push(character) + "` at "@ + location_text(location),
        LexerErrorView::UnterminatedComment { location, .. } => "unterminated comment at "@
            + location_text(location),
        LexerErrorView::UnterminatedString { location, .. } => "unterminated string at "@
            + location_text(location),
    }
}

impl LexerError {
    /// Where the error happened.
    pub fn location(&self) -> (location: &Location)
        ensures
            location@ == self@.location(),
    {
        match self {
            LexerError::InvalidMark { location, .. } => location,
            LexerError::UnexpectedCharacter { location, .. } => location,
            LexerError::UnterminatedComment { location, .. } => location,
            LexerError::UnterminatedString { location, .. } => location,
        }
    }

    /// The rendered message: the header with the location, the source line,
    /// the markers under it and the hint.
    pub fn rendered(&self) -> (message: &String)
        ensures
            message@ == self@.rendered(),
    {
        match self {
            LexerError::InvalidMark { error, .. } => error,
            LexerError::UnexpectedCharacter { error, .. } => error,
            LexerError::UnterminatedComment { error, .. } => error,
            LexerError::UnterminatedString { error, .. } => error,
        }
    }

    /// The one-line description of the error: what it is, and where.
    pub fn to_string(&self) -> (text: String)
        ensures
            text@ == description(self@),
    {
        let mut text: Vec<char> = match self {
            LexerError::InvalidMark { .. } => to_chars("invalid mark at "),
            LexerError::UnexpectedCharacter { character, .. } => {
                let mut start = to_chars("unexpected character `");
                start.push(*character);
                extend(&mut start, &to_chars("` at "));
                start
            },
            LexerError::UnterminatedComment { .. } => to_chars("unterminated comment at "),
            LexerError::UnterminatedString { .. } => to_chars("unterminated string at "),
        };
        extend(&mut text, &self.location().to_chars());
        to_text(&text)
    }

    /// An error for a run of mark characters that spells no mark. The run
    /// starts at the location's column and ends before the column `end + 1`.
    pub fn invalid_mark(location: Location, line: &Vec<char>, end: usize) -> (error: LexerError)
        requires
            shows(location@, line@),
            span_fits(location.column - 1, end as int, line@.len() as int),
        ensures
            error@ == invalid_mark(location@, line@, end as int),
    {
        let first = Marker { start: location.column - 1, end, label: "Invalid mark".to_owned() };
        let second = Marker {
            start: location.column - 1,
            end,
            label: "Replace it with a valid mark".to_owned(),
        };
        let source = to_text(line);
        let error = render(
            "E0001",
            "Syntax error",
            location.file.as_str(),
            location.line,
            source.as_str(),
            &first,
            &second,
        );
        LexerError::InvalidMark { location, error }
    }

    /// An error for a character that can start no token.
    pub fn unexpected_character(location: Location, character: char, line: &Vec<char>) -> (error:
        LexerError)
        requires
            shows(location@, line@),
        ensures
            error@ == unexpected_character(location@, character, line@),
    {
        let first = Marker {
            start: location.column - 1,
            end: location.column,
            label: "Unexpected character".to_owned(),
        };
        let second = Marker {
            start: location.column - 1,
            end: location.column,
            label: "Remove this character".to_owned(),
        };
        let source = to_text(line);
        let error = render(
            "E0001",
            "Syntax error",
            location.file.as_str(),
            location.line,
            source.as_str(),
            &first,
            &second,
        );
        LexerError::UnexpectedCharacter { character, location, error }
    }

    /// An error for a block comment that is not closed.
    pub fn multiline_comment_not_closed(location: Location, line: &Vec<char>) -> (error: LexerError)
        requires
            shows(location@, line@),
        ensures
            error@ == unterminated_comment(location@, line@),
    {
        let first = Marker {
            start: location.column - 1,
            end: line.len(),
            label: "Unterminated comment".to_owned(),
        };
        let second = Marker {
            start: line.len(),
            end: line.len() + 1,
            label: "Add `*/` to close the comment".to_owned(),
        };
        let source = to_text(line);
        let error = render(
            "E0001",
            "Syntax error",
            location.file.as_str(),
            location.line,
            source.as_str(),
            &first,
            &second,
        );
        LexerError::UnterminatedComment { location, error }
    }

    /// An error for a quoted literal that is not closed. `escaped` says that
    /// the line ends in an escaped quote.
    pub fn string_not_closed(
        location: Location,
        line: &Vec<char>,
        quote_type: char,
        escaped: bool,
    ) -> (error: LexerError)
        requires
            shows(location@, line@),
            escaped ==> line@.len() >= 2,
        ensures
            error@ == unterminated_string(location@, line@, quote_type, escaped),
    {
        let first = Marker {
            start: location.column - 1,
            end: location.column,
            label: "String starts here".to_owned(),
        };
        let second = if escaped {
            Marker {
                start: line.len() - 2,
                end: line.len() - 1,
                label: "Remove the `\\` here".to_owned(),
            }
        } else {
            let mut label = to_chars("Add `");
            label.push(quote_type);
            extend(&mut label, &to_chars("` here"));
            Marker { start: line.len(), end: line.len() + 1, label: to_text(&label) }
        };
        let source = to_text(line);
        let error = render(
            "E0002",
            "Unterminated string literal",
            location.file.as_str(),
            location.line,
            source.as_str(),
            &first,
            &second,
        );
        LexerError::UnterminatedString { location, error }
    }
}

} // verus!
