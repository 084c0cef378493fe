//! The scanners: each reads one lexeme behind its first character, which the
//! caller has consumed and hands over.

use vstd::prelude::*;
use crate::characters::{
    alphabetic,
    is_alphabetic_char,
    is_ascii_digit,
    is_digit,
    matches_text,
    to_chars,
    to_text,
};
use crate::comment::{
    comment_close,
    lemma_comment_close_bounds,
    next_line,
    remove_multi_line_comment,
    remove_single_line_comment,
};
use crate::error::{
    invalid_mark,
    shows,
    unexpected_character,
    unterminated_comment,
    unterminated_string,
    LexerError,
    LexerErrorView,
};
use crate::iterator::{
    column_of,
    lemma_line_end_bounds,
    lemma_line_start_bounds,
    lemma_run_end_unique,
    lemma_same_line,
    line_end,
    line_start,
    line_text,
    run_end,
    ConditionalPeeking,
    Cursor,
};
use crate::text::{extend, trim, trimmed};
use crate::tokens::constant::Type;
use crate::tokens::keyword::Keyword;
use crate::tokens::mark::Mark;
use crate::tokens::token::{GetToken, Literal, Location, LocationView, Token, TokenType, TokenView};

verus! {

/// What scanning one lexeme comes to: a token and the index behind it, or an
/// error and the index at which scanning stopped.
pub enum Scan {
    Token { token: TokenView, end: int },
    Failure { error: LexerErrorView, end: int },
}

impl Scan {
    /// The index behind the lexeme, or at which scanning stopped.
    pub open spec fn end(self) -> int {
        match self {
            Scan::Token { end, .. } => end,
            Scan::Failure { end, .. } => end,
        }
    }
}

/// Whether what a scanner returned, and where it left the cursor, is what
/// scanning comes to.
pub open spec fn delivers(result: Result<Token, LexerError>, index: int, scan: Scan) -> bool {
    match scan {
        Scan::Token { token, end } => result matches Ok(found) && found@ == token && index == end,
        Scan::Failure { error, end } => result matches Err(raised) && raised@ == error && index
            == end,
    }
}

/// Whether a scanner may start: the cursor is in order, and the location of
/// the lexeme's first character lies in the cursor's line, at the cursor or
/// before it.
pub open spec fn ready(cursor: &Cursor, location: LocationView) -> bool {
    &&& cursor.well_formed()
    &&& location.line < usize::MAX
    &&& 1 <= location.column <= cursor.column()
}

/// The line that the cursor stands in shows the location of a lexeme that a
/// scanner is ready for.
pub proof fn lemma_ready_shows(cursor: &Cursor, location: LocationView)
    requires
        ready(cursor, location),
    ensures
        shows(location, line_text(cursor.text(), cursor.index())),
        line_text(cursor.text(), cursor.index()).len() == line_end(cursor.text(), cursor.index())
            - line_start(cursor.text(), cursor.index()),
{
    cursor.lemma_bounds();
    lemma_line_start_bounds(cursor.text(), cursor.index());
    lemma_line_end_bounds(cursor.text(), cursor.index());
}

/// The characters that make a one-character mark longer.
pub open spec fn extends_mark(c: char) -> bool {
    c == '+' || c == '-' || c == '/' || c == '*' || c == '=' || c == '&' || c == '|' || c == '.'
}

/// The index behind a mark whose first character stands just before `i`: one
/// more character of the extension set, or `<` or `>` and then `=` if it
/// follows.
pub open spec fn mark_end(s: Seq<char>, i: int) -> int {
    if 0 <= i < s.len() && extends_mark(s[i]) {
        i + 1
    } else if 0 <= i < s.len() && (s[i] == '<' || s[i] == '>') {
        if i + 1 < s.len() && s[i + 1] == '=' {
            i + 2
        } else {
            i + 1
        }
    } else {
        i
    }
}

/// The characters of a lexeme: its first one, and what stands from `i` up to
/// `end`.
pub open spec fn lexeme(first: char, s: Seq<char>, i: int, end: int) -> Seq<char> {
    seq![first] + s.subrange(i, end)
}

/// Scanning a lexeme that starts with a mark character: a block comment
/// behind `/*`, a comment to the end of the line behind `//`, else the mark
/// that the characters spell. Characters that spell no mark are an error over
/// their span. Behind a comment to the end of the line, scanning goes on at
/// the start of the next line.
pub open spec fn scan_mark(s: Seq<char>, i: int, location: LocationView, first: char) -> Scan {
    let end = mark_end(s, i);
    let buffer = lexeme(first, s, i, end);
    if buffer == "/*"@ {
        let close = comment_close(s, end);
        if close < s.len() {
            Scan::Token {
                token: TokenView {
                    location,
                    content: trimmed(s.subrange(end, close)),
                    token_type: TokenType::BlockComment,
                },
                end: close + 2,
            }
        } else {
            Scan::Failure {
                error: unterminated_comment(location, line_text(s, i)),
                end: s.len() as int,
            }
        }
    } else if buffer == "//"@ {
        Scan::Token {
            token: TokenView {
                location,
                content: trimmed(s.subrange(end, line_end(s, end))),
                token_type: TokenType::Comment,
            },
            end: next_line(s, end),
        }
    } else {
        match Mark::from_spelling(buffer) {
            Some(mark) => Scan::Token {
                token: TokenView {
                    location,
                    content: mark.spelling(),
                    token_type: TokenType::Mark(mark),
                },
                end,
            },
            None => Scan::Failure {
                error: invalid_mark(location, line_text(s, i), column_of(s, end) - 1),
                end,
            },
        }
    }
}

/// Whether a character is one of those that make a mark longer.
fn is_mark_extension(c: char) -> (b: bool)
    ensures
        b == extends_mark(c),
{
    c == '+' || c == '-' || c == '/' || c == '*' || c == '=' || c == '&' || c == '|' || c == '.'
}

impl TokenType {
    /// Scans a mark, or a comment, whose first character `character` has been
    /// consumed. Characters that spell no mark are an invalid mark; a token is
    /// always `Some`.
    pub fn lex_mark(cursor: &mut Cursor, location: Location, character: char) -> (result: Result<
        Option<Token>,
        LexerError,
    >)
        requires
            ready(old(cursor), location@),
        ensures
            final(cursor).well_formed(),
            final(cursor).text() == old(cursor).text(),
            match scan_mark(old(cursor).text(), old(cursor).index(), location@, character) {
                Scan::Token { token, end } => result matches Ok(Some(found)) && found@ == token
                    && final(cursor).index() == end,
                Scan::Failure { error, end } => result matches Err(raised) && raised@ == error
                    && final(cursor).index() == end,
            },
    {
        let ghost s = cursor.text();
        let ghost i = cursor.index();
        proof {
            cursor.lemma_bounds();
            lemma_ready_shows(cursor, location@);
        }
        let line = cursor.current_line();
        let mut buffer: Vec<char> = Vec::new();
        buffer.push(character);
        match cursor.peek() {
            Some(next) => {
                if is_mark_extension(next) {
                    cursor.next();
                    buffer.push(next);
                } else if next == '<' || next == '>' {
                    cursor.next();
                    buffer.push(next);
                    match cursor.peek() {
                        Some('=') => {
                            cursor.next();
                            buffer.push('=');
                        },
                        _ => {},
                    }
                }
            },
            None => {},
        }
        assert(cursor.index() == mark_end(s, i));
        assert(buffer@ =~= lexeme(character, s, i, mark_end(s, i)));
        if matches_text(&buffer, "/*") {
            proof {
                lemma_comment_close_bounds(s, cursor.index());
            }
            match remove_multi_line_comment(cursor) {
                Some(body) => {
                    let content = to_text(&trim(&body));
                    Ok(Some(Token { location, content, token_type: TokenType::BlockComment }))
                },
                None => Err(LexerError::multiline_comment_not_closed(location, &line)),
            }
        } else if matches_text(&buffer, "//") {
            let body = remove_single_line_comment(cursor);
            let content = to_text(&trim(&body));
            Ok(Some(Token { location, content, token_type: TokenType::Comment }))
        } else {
            match Mark::get_token(location.clone(), &buffer) {
                Some(token) => Ok(Some(token)),
                None => {
                    proof {
                        cursor.lemma_bounds();
                        lemma_same_line(s, i, cursor.index());
                        lemma_line_end_bounds(s, cursor.index());
                        lemma_line_start_bounds(s, cursor.index());
                    }
                    let end = cursor.position().column_number - 1;
                    Err(LexerError::invalid_mark(location, &line, end))
                },
            }
        }
    }
}

/// The character that a backslash and `c` stand for, where they stand for
/// one.
pub open spec fn unescape(c: char) -> Option<char> {
    if c == 'n' {
        Some('\n')
    } else if c == 't' {
        Some('\t')
    } else if c == 'r' {
        Some('\r')
    } else if c == '\\' || c == '"' || c == '\'' {
        Some(c)
    } else {
        None
    }
}

/// What a backslash and `c` contribute to the content of a literal: the
/// character they stand for, or both as they are.
pub open spec fn decoded(c: char) -> Seq<char> {
    match unescape(c) {
        Some(plain) => seq![plain],
        None => seq!['\\', c],
    }
}

/// The body of a quoted literal, read from `i`.
pub struct Quoted {
    /// Whether the closing quote was found in the line.
    pub closed: bool,
    /// The index of the closing quote, or of the end of the line.
    pub end: int,
    /// The body with its escapes resolved.
    pub content: Seq<char>,
    /// Whether an unclosed body ends in an escaped quote.
    pub escaped: bool,
}

/// Reads the body of a quoted literal from `i`. A backslash takes the
/// character behind it along, so a quote behind an odd number of backslashes
/// does not close the literal. The line feed and the end of the text end the
/// body unclosed.
pub open spec fn scan_quoted(s: Seq<char>, i: int, quote_type: char) -> Quoted
    decreases s.len() - i,
{
    if i < 0 || i >= s.len() {
        Quoted { closed: false, end: s.len() as int, content: Seq::empty(), escaped: false }
    } else if s[i] == '\n' {
        Quoted { closed: false, end: i, content: Seq::empty(), escaped: false }
    } else if s[i] == quote_type {
        Quoted { closed: true, end: i, content: Seq::empty(), escaped: false }
    } else if s[i] == '\\' && i + 1 < s.len() && s[i + 1] != '\n' {
        let rest = scan_quoted(s, i + 2, quote_type);
        Quoted {
            closed: rest.closed,
            end: rest.end,
            content: decoded(s[i + 1]) + rest.content,
            escaped: if !rest.closed && rest.end == i + 2 {
                s[i + 1] == quote_type
            } else {
                rest.escaped
            },
        }
    } else {
        let rest = scan_quoted(s, i + 1, quote_type);
        Quoted {
            closed: rest.closed,
            end: rest.end,
            content: seq![s[i]] + rest.content,
            escaped: rest.escaped,
        }
    }
}

/// The body of a literal ends at or behind its start and within its line: at
/// the closing quote, or unclosed at the end of the line.
pub proof fn lemma_scan_quoted_bounds(s: Seq<char>, i: int, quote_type: char)
    requires
        0 <= i <= s.len(),
    ensures
        i <= scan_quoted(s, i, quote_type).end <= s.len(),
        scan_quoted(s, i, quote_type).end == i ==> !scan_quoted(s, i, quote_type).escaped,
        scan_quoted(s, i, quote_type).closed ==> scan_quoted(s, i, quote_type).end < s.len()
            && s[scan_quoted(s, i, quote_type).end] == quote_type,
        !scan_quoted(s, i, quote_type).closed ==> scan_quoted(s, i, quote_type).end == line_end(
            s,
            i,
        ),
        scan_quoted(s, i, quote_type).escaped ==> scan_quoted(s, i, quote_type).end >= i + 2,
        forall|j: int| i <= j < scan_quoted(s, i, quote_type).end ==> s[j] != '\n',
    decreases s.len() - i,
{
    if i < s.len() && s[i] != '\n' && s[i] != quote_type {
        if s[i] == '\\' && i + 1 < s.len() && s[i + 1] != '\n' {
            lemma_scan_quoted_bounds(s, i + 2, quote_type);
            assert(line_end(s, i + 1) == line_end(s, i + 2));
        } else {
            lemma_scan_quoted_bounds(s, i + 1, quote_type);
        }
    }
}

/// Scanning a quoted literal whose opening quote stands just before `i`.
pub open spec fn scan_string(s: Seq<char>, i: int, location: LocationView, quote_type: char) -> Scan {
    let body = scan_quoted(s, i, quote_type);
    if body.closed {
        Scan::Token {
            token: TokenView {
                location,
                content: body.content,
                token_type: TokenType::Literal(Literal::String),
            },
            end: body.end + 1,
        }
    } else {
        Scan::Failure {
            error: unterminated_string(location, line_text(s, i), quote_type, body.escaped),
            end: body.end,
        }
    }
}

/// The character that a backslash and `c` stand for, where they stand for
/// one.
fn resolve_escape(c: char) -> (plain: Option<char>)
    ensures
        plain == unescape(c),
{
    if c == 'n' {
        Some('\n')
    } else if c == 't' {
        Some('\t')
    } else if c == 'r' {
        Some('\r')
    } else if c == '\\' || c == '"' || c == '\'' {
        Some(c)
    } else {
        None
    }
}

impl Literal {
    /// Scans a quoted literal whose opening quote `quote_type` has been
    /// consumed. The token's content is the body with its escapes resolved.
    pub fn lex_string(cursor: &mut Cursor, location: Location, quote_type: char) -> (result: Result<
        Token,
        LexerError,
    >)
        requires
            ready(old(cursor), location@),
        ensures
            final(cursor).well_formed(),
            final(cursor).text() == old(cursor).text(),
            delivers(
                result,
                final(cursor).index(),
                scan_string(old(cursor).text(), old(cursor).index(), location@, quote_type),
            ),
    {
        let ghost s = cursor.text();
        let ghost i = cursor.index();
        let ghost whole = scan_quoted(s, i, quote_type);
        proof {
            cursor.lemma_bounds();
            lemma_ready_shows(cursor, location@);
            lemma_scan_quoted_bounds(s, i, quote_type);
        }
        let line = cursor.current_line();
        let mut content: Vec<char> = Vec::new();
        let mut escaped: bool = false;
        let mut closed: bool = false;
        loop
            invariant_except_break
                !closed,
                whole.closed == scan_quoted(s, cursor.index(), quote_type).closed,
                whole.end == scan_quoted(s, cursor.index(), quote_type).end,
                whole.content == content@ + scan_quoted(s, cursor.index(), quote_type).content,
                whole.escaped == if !scan_quoted(s, cursor.index(), quote_type).closed
                    && scan_quoted(s, cursor.index(), quote_type).end == cursor.index() {
                    escaped
                } else {
                    scan_quoted(s, cursor.index(), quote_type).escaped
                },
            invariant
                cursor.well_formed(),
                cursor.text() == s,
                0 <= i <= cursor.index() <= s.len(),
                whole == scan_quoted(s, i, quote_type),
                cursor.index() == i ==> !escaped,
            ensures
                whole.closed == closed,
                closed ==> whole.end + 1 == cursor.index(),
                !closed ==> whole.end == cursor.index(),
                whole.content == content@,
                !closed ==> whole.escaped == escaped,
            decreases s.len() - cursor.index(),
        {
            let ghost k = cursor.index();
            let ghost prior = content@;
            proof {
                lemma_scan_quoted_bounds(s, k, quote_type);
            }
            match cursor.peek() {
                None => {
                    assert(content@ + Seq::<char>::empty() == content@);
                    break ;
                },
                Some(c) => {
                    if c == '\n' {
                        assert(content@ + Seq::<char>::empty() == content@);
                        break ;
                    }
                    cursor.next();
                    if c == quote_type {
                        assert(content@ + Seq::<char>::empty() == content@);
                        closed = true;
                        break ;
                    }
                    let mut paired: bool = false;
                    if c == '\\' {
                        match cursor.peek() {
                            Some(second) => {
                                if second != '\n' {
                                    cursor.next();
                                    proof {
                                        lemma_scan_quoted_bounds(s, k + 2, quote_type);
                                        assert(content@ + (decoded(second) + scan_quoted(
                                            s,
                                            k + 2,
                                            quote_type,
                                        ).content) == (content@ + decoded(second)) + scan_quoted(
                                            s,
                                            k + 2,
                                            quote_type,
                                        ).content);
                                    }
                                    match resolve_escape(second) {
                                        Some(plain) => {
                                            content.push(plain);
                                            assert(content@ =~= prior + decoded(second));
                                        },
                                        None => {
                                            content.push('\\');
                                            content.push(second);
                                            assert(content@ =~= prior + decoded(second));
                                        },
                                    }
                                    escaped = second == quote_type;
                                    paired = true;
                                }
                            },
                            None => {},
                        }
                    }
                    if !paired {
                        proof {
                            lemma_scan_quoted_bounds(s, k + 1, quote_type);
                            assert(content@ + (seq![c] + scan_quoted(s, k + 1, quote_type).content)
                                == (content@ + seq![c]) + scan_quoted(s, k + 1, quote_type).content);
                        }
                        content.push(c);
                        assert(content@ =~= prior + seq![c]);
                        escaped = false;
                    }
                },
            }
        }
        if closed {
            Ok(
                Token {
                    location,
                    content: to_text(&content),
                    token_type: TokenType::Literal(Literal::String),
                },
            )
        } else {
            proof {
                lemma_same_line(s, i, cursor.index());
            }
            Err(LexerError::string_not_closed(location, &line, quote_type, escaped))
        }
    }
}

/// The characters that a number goes on with.
pub open spec fn in_number(c: char) -> bool {
    is_digit(c) || c == '.' || c == '_'
}

/// `in_number`, as a value.
pub open spec fn number_chars() -> spec_fn(char) -> bool {
    |c: char| in_number(c)
}

/// The index of the first decimal point of `run` at or behind `from`, or the
/// length of `run`.
pub open spec fn dot_in(run: Seq<char>, from: int) -> int
    decreases run.len() - from,
{
    if from < 0 || from >= run.len() {
        run.len() as int
    } else if run[from] == '.' {
        from
    } else {
        dot_in(run, from + 1)
    }
}

/// Scanning a number whose first digit stands just before `i`. The number
/// runs on over digits, decimal points and underscores; it is an integer
/// without a decimal point and a float with one. A second decimal point is an
/// error, raised at that point.
pub open spec fn scan_number(s: Seq<char>, i: int, location: LocationView, first: char) -> Scan {
    let end = run_end(s, i, number_chars());
    let run = s.subrange(i, end);
    let first_dot = dot_in(run, 0);
    let second_dot = dot_in(run, first_dot + 1);
    if second_dot < run.len() {
        Scan::Failure {
            error: unexpected_character(
                LocationView {
                    file: location.file,
                    line: location.line,
                    column: column_of(s, i + second_dot),
                },
                '.',
                line_text(s, i),
            ),
            end,
        }
    } else {
        Scan::Token {
            token: TokenView {
                location,
                content: lexeme(first, s, i, end),
                token_type: TokenType::Literal(
                    if first_dot < run.len() {
                        Literal::Float
                    } else {
                        Literal::Integer
                    },
                ),
            },
            end,
        }
    }
}

/// The characters of a number that count for its value: all but the
/// underscores, which only group the digits.
pub open spec fn significant(content: Seq<char>) -> Seq<char>
    decreases content.len(),
{
    if content.len() == 0 {
        Seq::empty()
    } else if content.last() == '_' {
        significant(content.drop_last())
    } else {
        significant(content.drop_last()).push(content.last())
    }
}

/// The index of the first decimal point of `run` at or behind `from`, or the
/// length of `run`.
fn find_dot(run: &Vec<char>, from: usize) -> (index: usize)
    requires
        from <= run.len(),
    ensures
        index == dot_in(run@, from as int),
        from <= index <= run.len(),
{
    let mut index: usize = from;
    while index < run.len() && run[index] != '.'
        invariant
            from <= index <= run.len(),
            dot_in(run@, index as int) == dot_in(run@, from as int),
        decreases run.len() - index,
    {
        index += 1;
    }
    index
}

impl Literal {
    /// The characters of a number's content that count for its value: the
    /// content without its underscores.
    pub fn significant_digits(content: &str) -> (digits: String)
        ensures
            digits@ == significant(content@),
    {
        let chars = to_chars(content);
        let mut digits: Vec<char> = Vec::new();
        let mut i: usize = 0;
        while i < chars.len()
            invariant
                i <= chars.len(),
                digits@ == significant(chars@.take(i as int)),
            decreases chars.len() - i,
        {
            assert(chars@.take(i + 1).drop_last() == chars@.take(i as int));
            if chars[i] != '_' {
                digits.push(chars[i]);
            }
            i += 1;
        }
        assert(chars@.take(i as int) == chars@);
        to_text(&digits)
    }

    /// Scans a number whose first digit `character` has been consumed.
    pub fn lex_number(cursor: &mut Cursor, location: Location, character: char) -> (result: Result<
        Token,
        LexerError,
    >)
        requires
            ready(old(cursor), location@),
        ensures
            final(cursor).well_formed(),
            final(cursor).text() == old(cursor).text(),
            delivers(
                result,
                final(cursor).index(),
                scan_number(old(cursor).text(), old(cursor).index(), location@, character),
            ),
    {
        let ghost s = cursor.text();
        let ghost i = cursor.index();
        proof {
            cursor.lemma_bounds();
            lemma_ready_shows(cursor, location@);
        }
        let line = cursor.current_line();
        let start = cursor.position();
        let goes_on = |c: char| -> (b: bool)
            ensures
                b == in_number(c),
            { is_ascii_digit(c) || c == '.' || c == '_' };
        let run = cursor.peek_while(goes_on);
        proof {
            lemma_run_end_unique(s, i, cursor.index(), number_chars());
        }
        let first_dot = find_dot(&run, 0);
        let second_dot = if first_dot < run.len() {
            find_dot(&run, first_dot + 1)
        } else {
            run.len()
        };
        if second_dot < run.len() {
            proof {
                lemma_line_start_bounds(s, i);
                lemma_line_end_bounds(s, i);
                assert forall|k: int| i <= k < i + second_dot implies s[k] != '\n' by {
                    assert(s[k] == run@[k - i]);
                    assert(in_number(s[k]));
                }
                assert(s[i + second_dot] == run@[second_dot as int]);
                lemma_same_line(s, i, i + second_dot);
                lemma_line_end_bounds(s, i + second_dot);
            }
            let at = Location {
                file: location.file,
                line: location.line,
                column: start.column_number + second_dot,
            };
            Err(LexerError::unexpected_character(at, '.', &line))
        } else {
            let mut buffer: Vec<char> = Vec::new();
            buffer.push(character);
            extend(&mut buffer, &run);
            let literal = if first_dot < run.len() {
                Literal::Float
            } else {
                Literal::Integer
            };
            Ok(Token { location, content: to_text(&buffer), token_type: TokenType::Literal(literal) })
        }
    }
}

/// The characters that a word goes on with.
pub open spec fn in_word(c: char) -> bool {
    alphabetic(c) || c == '_'
}

/// `in_word`, as a value.
pub open spec fn word_chars() -> spec_fn(char) -> bool {
    |c: char| in_word(c)
}

/// What a word is: the first of keyword, type name and literal word whose
/// table knows it, with the table's spelling as content; else an identifier,
/// with the word itself.
pub open spec fn classify_word(buffer: Seq<char>) -> (TokenType, Seq<char>) {
    if let Some(found) = Keyword::classify(buffer) {
        found
    } else if let Some(found) = Type::classify(buffer) {
        found
    } else if let Some(found) = Literal::classify(buffer) {
        found
    } else {
        (TokenType::Identifier, buffer)
    }
}

/// Scanning a word whose first character stands just before `i`. The word
/// runs on over letters and underscores.
pub open spec fn scan_word(s: Seq<char>, i: int, location: LocationView, first: char) -> Scan {
    let end = run_end(s, i, word_chars());
    let word = classify_word(lexeme(first, s, i, end));
    Scan::Token { token: TokenView { location, content: word.1, token_type: word.0 }, end }
}

impl TokenType {
    /// Scans a word whose first character `character` has been consumed: a
    /// keyword, a type name, a literal word or an identifier.
    pub fn lex_word(cursor: &mut Cursor, location: Location, character: char) -> (token: Token)
        requires
            old(cursor).well_formed(),
        ensures
            final(cursor).well_formed(),
            final(cursor).text() == old(cursor).text(),
            delivers(
                Ok(token),
                final(cursor).index(),
                scan_word(old(cursor).text(), old(cursor).index(), location@, character),
            ),
    {
        let ghost s = cursor.text();
        let ghost i = cursor.index();
        proof {
            cursor.lemma_bounds();
        }
        let goes_on = |c: char| -> (b: bool)
            ensures
                b == in_word(c),
            { is_alphabetic_char(c) || c == '_' };
        let run = cursor.peek_while(goes_on);
        proof {
            lemma_run_end_unique(s, i, cursor.index(), word_chars());
        }
        let mut buffer: Vec<char> = Vec::new();
        buffer.push(character);
        extend(&mut buffer, &run);
        if let Some(token) = Keyword::get_token(location.clone(), &buffer) {
            token
        } else if let Some(token) = Type::get_token(location.clone(), &buffer) {
            token
        } else if let Some(token) = Literal::get_token(location.clone(), &buffer) {
            token
        } else {
            Token { location, content: to_text(&buffer), token_type: TokenType::Identifier }
        }
    }
}

} // verus!
