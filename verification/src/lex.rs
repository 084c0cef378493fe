//! Lexing: from source text to tokens.

use vstd::prelude::*;
use crate::characters::{
    alphabetic,
    is_alphabetic_char,
    is_ascii_digit,
    is_digit,
    is_whitespace_char,
    whitespace,
};
use crate::error::{unexpected_character, LexerError, LexerErrorView};
use crate::iterator::{
    column_of,
    lemma_line_end_bounds,
    lemma_line_start_bounds,
    lemma_run_end_bounds,
    line_of,
    line_text,
    Cursor,
};
use crate::comment::lemma_comment_close_bounds;
use crate::scanner::{
    delivers,
    lemma_ready_shows,
    lemma_scan_quoted_bounds,
    mark_end,
    number_chars,
    ready,
    scan_mark,
    scan_number,
    scan_string,
    scan_word,
    word_chars,
    Scan,
};
use crate::tokens::token::{
    token_views,
    Literal,
    Location,
    LocationView,
    Token,
    TokenType,
    TokenView,
};

verus! {

/// The characters that open a quoted literal.
pub open spec fn is_quote(c: char) -> bool {
    c == '"' || c == '\''
}

/// The characters that a mark can start with.
pub open spec fn starts_mark(c: char) -> bool {
    c == '+' || c == '-' || c == '*' || c == '/' || c == '^' || c == '%' || c == '@' || c == '<'
        || c == '>' || c == '!' || c == '=' || c == '&' || c == '|' || c == ':' || c == '.' || c
        == ',' || c == ';' || c == '~' || c == '?' || c == '(' || c == ')' || c == '{' || c == '}'
        || c == '[' || c == ']'
}

/// The location of index `p` of `s` in `file`.
pub open spec fn location_at(s: Seq<char>, file: Seq<char>, p: int) -> LocationView {
    LocationView { file, line: line_of(s, p), column: column_of(s, p) }
}

/// Scanning the lexeme that starts at index `p`, by the class of its first
/// character: a quote, a mark character, a digit, a letter or underscore. Any
/// other character is an error.
pub open spec fn scan(s: Seq<char>, file: Seq<char>, p: int) -> Scan {
    let first = s[p];
    let location = location_at(s, file, p);
    if is_quote(first) {
        scan_string(s, p + 1, location, first)
    } else if starts_mark(first) {
        scan_mark(s, p + 1, location, first)
    } else if is_digit(first) {
        scan_number(s, p + 1, location, first)
    } else if alphabetic(first) || first == '_' {
        scan_word(s, p + 1, location, first)
    } else {
        Scan::Failure {
            error: unexpected_character(location, first, line_text(s, p + 1)),
            end: p + 1,
        }
    }
}

/// Scanning a lexeme ends behind its first character, and inside the text.
pub proof fn lemma_scan_advances(s: Seq<char>, file: Seq<char>, p: int)
    requires
        0 <= p < s.len(),
    ensures
        p < scan(s, file, p).end() <= s.len(),
{
    let first = s[p];
    let location = location_at(s, file, p);
    if is_quote(first) {
        lemma_scan_quoted_bounds(s, p + 1, first);
    } else if starts_mark(first) {
        let end = mark_end(s, p + 1);
        lemma_comment_close_bounds(s, end);
        lemma_line_end_bounds(s, end);
    } else if is_digit(first) {
        lemma_run_end_bounds(s, p + 1, number_chars());
    } else if alphabetic(first) || first == '_' {
        lemma_run_end_bounds(s, p + 1, word_chars());
    }
}

/// What lexing `s` from index `p` on comes to: the tokens in the order of
/// their lexemes, whitespace left out, or the first error.
pub open spec fn lex_from(s: Seq<char>, file: Seq<char>, p: int) -> Result<
    Seq<TokenView>,
    LexerErrorView,
>
    decreases s.len() - p,
{
    if p < 0 || p >= s.len() {
        Ok(Seq::empty())
    } else if whitespace(s[p]) {
        lex_from(s, file, p + 1)
    } else {
        match scan(s, file, p) {
            Scan::Token { token, end } => {
                proof {
                    lemma_scan_advances(s, file, p);
                }
                match lex_from(s, file, end) {
                    Ok(rest) => Ok(seq![token] + rest),
                    Err(error) => Err(error),
                }
            },
            Scan::Failure { error, .. } => Err(error),
        }
    }
}

/// What lexing the text `input` of `file` comes to.
pub open spec fn lexed(input: Seq<char>, file: Seq<char>) -> Result<Seq<TokenView>, LexerErrorView> {
    lex_from(input, file, 0)
}

/// What lexing `s` from index `p` on comes to where errors do not end it:
/// the tokens, and the errors, each in the order of their lexemes. Behind an
/// error lexing goes on where the scan of the failed lexeme stopped.
pub open spec fn recover_from(s: Seq<char>, file: Seq<char>, p: int) -> (
    Seq<TokenView>,
    Seq<LexerErrorView>,
)
    decreases s.len() - p,
{
    if p < 0 || p >= s.len() {
        (Seq::empty(), Seq::empty())
    } else if whitespace(s[p]) {
        recover_from(s, file, p + 1)
    } else {
        let rest = {
            proof {
                lemma_scan_advances(s, file, p);
            }
            recover_from(s, file, scan(s, file, p).end())
        };
        match scan(s, file, p) {
            Scan::Token { token, .. } => (seq![token] + rest.0, rest.1),
            Scan::Failure { error, .. } => (rest.0, seq![error] + rest.1),
        }
    }
}

/// The views of a sequence of errors.
pub open spec fn error_views(errors: Seq<LexerError>) -> Seq<LexerErrorView> {
    errors.map_values(|error: LexerError| error@)
}

/// Whether a character is one of those that a mark can start with.
fn is_mark_start(c: char) -> (b: bool)
    ensures
        b == starts_mark(c),
{
    c == '+' || c == '-' || c == '*' || c == '/' || c == '^' || c == '%' || c == '@' || c == '<'
        || c == '>' || c == '!' || c == '=' || c == '&' || c == '|' || c == ':' || c == '.' || c
        == ',' || c == ';' || c == '~' || c == '?' || c == '(' || c == ')' || c == '{' || c == '}'
        || c == '[' || c == ']'
}

/// Scans the lexeme whose first character `character` the cursor has just
/// consumed, and which started at the given line and column.
fn lex_one(cursor: &mut Cursor, file: &str, line: usize, column: usize, character: char) -> (result:
    Result<Token, LexerError>)
    requires
        old(cursor).well_formed(),
        0 < old(cursor).index(),
        old(cursor).text()[old(cursor).index() - 1] == character,
        !whitespace(character),
        line == line_of(old(cursor).text(), old(cursor).index() - 1),
        column == column_of(old(cursor).text(), old(cursor).index() - 1),
    ensures
        final(cursor).well_formed(),
        final(cursor).text() == old(cursor).text(),
        delivers(
            result,
            final(cursor).index(),
            scan(old(cursor).text(), file@, old(cursor).index() - 1),
        ),
{
    let ghost s = cursor.text();
    let ghost p = cursor.index() - 1;
    let location = Location { file: file.to_owned(), line, column };
    proof {
        cursor.lemma_bounds();
        lemma_line_start_bounds(s, p);
        lemma_line_start_bounds(s, p + 1);
        assert(ready(cursor, location@));
        lemma_ready_shows(cursor, location@);
    }
    if character == '"' || character == '\'' {
        Literal::lex_string(cursor, location, character)
    } else if is_mark_start(character) {
        match TokenType::lex_mark(cursor, location, character) {
            Ok(found) => Ok(found.unwrap()),
            Err(error) => Err(error),
        }
    } else if is_ascii_digit(character) {
        Literal::lex_number(cursor, location, character)
    } else if is_alphabetic_char(character) || character == '_' {
        Ok(TokenType::lex_word(cursor, location, character))
    } else {
        let line_shown = cursor.current_line();
        Err(LexerError::unexpected_character(location, character, &line_shown))
    }
}

/// Whether `result` is what lexing the text `input` of `file` comes to.
pub open spec fn lexes_to(
    input: Seq<char>,
    file: Seq<char>,
    result: Result<Vec<Token>, LexerError>,
) -> bool {
    match result {
        Ok(tokens) => lexed(input, file) == Ok::<Seq<TokenView>, LexerErrorView>(
            token_views(tokens@),
        ),
        Err(error) => lexed(input, file) == Err::<Seq<TokenView>, LexerErrorView>(error@),
    }
}

/// Lexes the text `input`, which comes from `file`, into its tokens. The
/// tokens stand in the order of their lexemes; whitespace makes none. The
/// first error ends lexing and is returned alone.
pub fn lex(input: &str, file: &str) -> (result: Result<Vec<Token>, LexerError>)
    requires
        input@.len() < usize::MAX,
    ensures
        lexes_to(input@, file@, result),
{
    let mut cursor = Cursor::new(input);
    let mut tokens: Vec<Token> = Vec::new();
    let ghost s = input@;
    assert(token_views(tokens@) =~= Seq::empty());
    loop
        invariant
            cursor.well_formed(),
            cursor.text() == s,
            s == input@,
            match lex_from(s, file@, cursor.index()) {
                Ok(rest) => lexed(s, file@) == Ok::<Seq<TokenView>, LexerErrorView>(
                    token_views(tokens@) + rest,
                ),
                Err(error) => lexed(s, file@) == Err::<Seq<TokenView>, LexerErrorView>(error),
            },
        decreases s.len() - cursor.index(),
    {
        let ghost p = cursor.index();
        proof {
            cursor.lemma_bounds();
        }
        let position = cursor.position();
        match cursor.next() {
            None => {
                assert(token_views(tokens@) + Seq::<TokenView>::empty() == token_views(tokens@));
                return Ok(tokens);
            },
            Some(character) => {
                if !is_whitespace_char(character) {
                    proof {
                        lemma_scan_advances(s, file@, p);
                    }
                    match lex_one(
                        &mut cursor,
                        file,
                        position.line_number,
                        position.column_number,
                        character,
                    ) {
                        Ok(token) => {
                            let ghost before = token_views(tokens@);
                            tokens.push(token);
                            proof {
                                assert(token_views(tokens@) =~= before.push(token@));
                                match lex_from(s, file@, cursor.index()) {
                                    Ok(rest) => {
                                        assert(before + (seq![token@] + rest) =~= before.push(
                                            token@,
                                        ) + rest);
                                    },
                                    Err(_) => {},
                                }
                            }
                        },
                        Err(error) => {
                            return Err(error);
                        },
                    }
                }
            },
        }
    }
}

/// Lexes the text `input`, which comes from `file`, and goes on behind
/// errors: returns the tokens of the lexemes that could be read, and every
/// error, each in the order of their lexemes.
pub fn lex_recovering(input: &str, file: &str) -> (result: (Vec<Token>, Vec<LexerError>))
    requires
        input@.len() < usize::MAX,
    ensures
        (token_views(result.0@), error_views(result.1@)) == recover_from(input@, file@, 0),
{
    let mut cursor = Cursor::new(input);
    let mut tokens: Vec<Token> = Vec::new();
    let mut errors: Vec<LexerError> = Vec::new();
    let ghost s = input@;
    assert(token_views(tokens@) =~= Seq::empty());
    assert(error_views(errors@) =~= Seq::empty());
    loop
        invariant
            cursor.well_formed(),
            cursor.text() == s,
            s == input@,
            recover_from(s, file@, 0) == (
                token_views(tokens@) + recover_from(s, file@, cursor.index()).0,
                error_views(errors@) + recover_from(s, file@, cursor.index()).1,
            ),
        decreases s.len() - cursor.index(),
    {
        let ghost p = cursor.index();
        proof {
            cursor.lemma_bounds();
        }
        let position = cursor.position();
        match cursor.next() {
            None => {
                assert(token_views(tokens@) + Seq::<TokenView>::empty() == token_views(tokens@));
                assert(error_views(errors@) + Seq::<LexerErrorView>::empty() == error_views(
                    errors@,
                ));
                return (tokens, errors);
            },
            Some(character) => {
                if !is_whitespace_char(character) {
                    proof {
                        lemma_scan_advances(s, file@, p);
                    }
                    let ghost tokens_before = token_views(tokens@);
                    let ghost errors_before = error_views(errors@);
                    let ghost rest = recover_from(s, file@, scan(s, file@, p).end());
                    match lex_one(
                        &mut cursor,
                        file,
                        position.line_number,
                        position.column_number,
                        character,
                    ) {
                        Ok(token) => {
                            tokens.push(token);
                            proof {
                                assert(token_views(tokens@) =~= tokens_before.push(token@));
                                assert(tokens_before + (seq![token@] + rest.0)
                                    =~= tokens_before.push(token@) + rest.0);
                            }
                        },
                        Err(error) => {
                            errors.push(error);
                            proof {
                                assert(error_views(errors@) =~= errors_before.push(error@));
                                assert(errors_before + (seq![error@] + rest.1)
                                    =~= errors_before.push(error@) + rest.1);
                            }
                        },
                    }
                }
            },
        }
    }
}

} // verus!
