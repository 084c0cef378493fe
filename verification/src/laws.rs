//! What holds of lexing, whatever the input.

use vstd::prelude::*;
use crate::characters::{ascii_letter, is_digit, whitespace};
use crate::comment::{comment_close, lemma_comment_close_bounds};
use crate::error::{LexerError, LexerErrorView};
use crate::iterator::{lemma_line_start_bounds, lemma_run_end_unique};
use crate::lex::{
    is_quote,
    lemma_scan_advances,
    lex_from,
    lexed,
    lexes_to,
    location_at,
    recover_from,
    scan,
    starts_mark,
};
use crate::scanner::{
    classify_word,
    lemma_scan_quoted_bounds,
    lexeme,
    mark_end,
    scan_quoted,
    word_chars,
    Scan,
};
use crate::tokens::constant::Type;
use crate::tokens::keyword::Keyword;
use crate::tokens::mark::Mark;
use crate::tokens::token::{
    token_views,
    Literal,
    LocationView,
    Token,
    TokenType,
    TokenView,
};

verus! {

/// Lexing is a function of the text and the file name: whatever two runs on
/// the same input return, they return the same.
pub proof fn lemma_lex_is_deterministic(
    input: Seq<char>,
    file: Seq<char>,
    first: Result<Vec<Token>, LexerError>,
    second: Result<Vec<Token>, LexerError>,
)
    requires
        lexes_to(input, file, first),
        lexes_to(input, file, second),
    ensures
        match (first, second) {
            (Ok(one), Ok(other)) => token_views(one@) == token_views(other@),
            (Err(one), Err(other)) => one@ == other@,
            _ => false,
        },
{
}

/// The token that a text gives where it is one lexeme: at the first
/// character of the file.
pub open spec fn sole_token(file: Seq<char>, token_type: TokenType, content: Seq<char>) -> Result<
    Seq<TokenView>,
    LexerErrorView,
> {
    Ok(seq![TokenView { location: LocationView { file, line: 1, column: 1 }, content, token_type }])
}

/// A text that is one lexeme lexes to one token.
proof fn lemma_one_lexeme(s: Seq<char>, file: Seq<char>, token_type: TokenType, content: Seq<char>)
    requires
        s.len() > 0,
        !whitespace(s[0]),
        scan(s, file, 0) == (Scan::Token {
            token: TokenView { location: location_at(s, file, 0), content, token_type },
            end: s.len() as int,
        }),
    ensures
        lexed(s, file) == sole_token(file, token_type, content),
{
    let token = TokenView { location: location_at(s, file, 0), content, token_type };
    assert(lex_from(s, file, s.len() as int) == Ok::<Seq<TokenView>, LexerErrorView>(Seq::empty()));
    assert(seq![token] + Seq::<TokenView>::empty() =~= seq![token]);
}

/// A mark, lexed alone, gives one token: that mark, with its spelling.
pub proof fn lemma_mark_lexes_alone(mark: Mark, file: Seq<char>)
    ensures
        lexed(mark.spelling(), file) == sole_token(file, TokenType::Mark(mark), mark.spelling()),
{
    let s = mark.spelling();
    Mark::lemma_reveal_spellings();
    mark.lemma_spellings();
    reveal_strlit("/*");
    reveal_strlit("//");
    assert(s.len() > 0 && s.len() <= 3);
    assert(starts_mark(s[0]));
    assert(mark_end(s, 1) == s.len());
    assert(lexeme(s[0], s, 1, s.len() as int) =~= s);
    assert(s != "/*"@) by {
        if s.len() == 2 {
            assert("/*"@[0] == '/' && "/*"@[1] == '*');
            assert(!(s[0] == '/' && s[1] == '*'));
        }
    }
    assert(s != "//"@) by {
        if s.len() == 2 {
            assert("//"@[0] == '/' && "//"@[1] == '/');
            assert(!(s[0] == '/' && s[1] == '/'));
        }
    }
    lemma_one_lexeme(s, file, TokenType::Mark(mark), s);
}

/// Whether `s` is a word: it holds a character, and only ASCII letters.
pub open spec fn is_ascii_word(s: Seq<char>) -> bool {
    s.len() > 0 && forall|j: int| 0 <= j < s.len() ==> ascii_letter(#[trigger] s[j])
}

/// A word of ASCII letters, lexed alone, gives one token: what the tables
/// make of the word.
proof fn lemma_word_lexes_alone(s: Seq<char>, file: Seq<char>)
    requires
        is_ascii_word(s),
    ensures
        lexed(s, file) == sole_token(file, classify_word(s).0, classify_word(s).1),
{
    assert(ascii_letter(s[0]));
    assert forall|j: int| 1 <= j < s.len() implies word_chars()(#[trigger] s[j]) by {
        assert(ascii_letter(s[j]));
    }
    lemma_run_end_unique(s, 1, s.len() as int, word_chars());
    assert(lexeme(s[0], s, 1, s.len() as int) =~= s);
    lemma_one_lexeme(s, file, classify_word(s).0, classify_word(s).1);
}

/// A keyword, lexed alone, gives one token: that keyword, with its spelling.
pub proof fn lemma_keyword_lexes_alone(keyword: Keyword, file: Seq<char>)
    ensures
        lexed(keyword.spelling(), file) == sole_token(
            file,
            TokenType::Keyword(keyword),
            keyword.spelling(),
        ),
{
    Keyword::lemma_reveal_spellings();
    keyword.lemma_spellings();
    lemma_word_lexes_alone(keyword.spelling(), file);
}

/// No type name is spelled like a keyword.
pub proof fn lemma_type_is_no_keyword(name: Type)
    ensures
        Keyword::from_spelling(name.spelling()) is None,
        Keyword::from_spelling(name.alias()) is None,
{
    Keyword::lemma_reveal_spellings();
    reveal_strlit("str");
    reveal_strlit("string");
    reveal_strlit("int");
    reveal_strlit("integer");
    reveal_strlit("bool");
    reveal_strlit("boolean");
    let long = name.spelling();
    let short = name.alias();
    assert(long.len() >= 6 && (long[0] == 's' || long[0] == 'i' || long[0] == 'b') && (long[1]
        == 't' || long[1] == 'n' || long[1] == 'o') && (long[3] == 'i' || long[3] == 'e' || long[3]
        == 'l'));
    assert(3 <= short.len() <= 4 && (short[0] == 's' || short[0] == 'i' || short[0] == 'b') && (
    short[1] == 't' || short[1] == 'n' || short[1] == 'o') && (short[2] == 'r' || short[2] == 't'
        || short[2] == 'o'));
}

/// A type name, lexed alone by its spelling or by its alias, gives one token:
/// that type, with its canonical spelling.
pub proof fn lemma_type_lexes_alone(name: Type, file: Seq<char>)
    ensures
        lexed(name.spelling(), file) == sole_token(file, TokenType::Type(name), name.spelling()),
        lexed(name.alias(), file) == sole_token(file, TokenType::Type(name), name.spelling()),
{
    lemma_type_is_no_keyword(name);
    name.lemma_spellings();
    reveal_strlit("str");
    reveal_strlit("string");
    reveal_strlit("int");
    reveal_strlit("integer");
    reveal_strlit("bool");
    reveal_strlit("boolean");
    lemma_word_lexes_alone(name.spelling(), file);
    lemma_word_lexes_alone(name.alias(), file);
}

/// The spellings of the literal words, `None` among them.
pub open spec fn is_literal_word(s: Seq<char>) -> bool {
    s == "true"@ || s == "false"@ || s == "none"@ || s == "None"@
}

/// A literal word, lexed alone, gives one token: its literal, with the
/// canonical spelling.
pub proof fn lemma_literal_lexes_alone(s: Seq<char>, file: Seq<char>)
    requires
        is_literal_word(s),
    ensures
        Literal::from_spelling(s) matches Some(literal) && lexed(s, file) == sole_token(
            file,
            TokenType::Literal(literal),
            literal.spelling(),
        ),
        s == "true"@ ==> Literal::from_spelling(s) == Some(Literal::True),
        s == "false"@ ==> Literal::from_spelling(s) == Some(Literal::False),
        s == "none"@ || s == "None"@ ==> Literal::from_spelling(s) == Some(Literal::Null),
{
    Literal::lemma_spellings();
    Keyword::lemma_reveal_spellings();
    reveal_strlit("true");
    reveal_strlit("false");
    reveal_strlit("none");
    reveal_strlit("None");
    reveal_strlit("str");
    reveal_strlit("string");
    reveal_strlit("int");
    reveal_strlit("integer");
    reveal_strlit("bool");
    reveal_strlit("boolean");
    assert(4 <= s.len() <= 5 && (s[0] == 't' || s[0] == 'f' || s[0] == 'n' || s[0] == 'N') && (s[1]
        == 'r' || s[1] == 'a' || s[1] == 'o') && (s[2] == 'u' || s[2] == 'l' || s[2] == 'n'));
    assert(Keyword::from_spelling(s) is None);
    assert(Type::from_spelling(s) is None);
    lemma_word_lexes_alone(s, file);
}

/// The indices at which the tokens start that lexing `s` from `p` on gives.
pub open spec fn token_starts(s: Seq<char>, file: Seq<char>, p: int) -> Seq<int>
    decreases s.len() - p,
{
    if p < 0 || p >= s.len() {
        Seq::empty()
    } else if whitespace(s[p]) {
        token_starts(s, file, p + 1)
    } else {
        match scan(s, file, p) {
            Scan::Token { end, .. } => {
                proof {
                    lemma_scan_advances(s, file, p);
                }
                seq![p] + token_starts(s, file, end)
            },
            Scan::Failure { .. } => Seq::empty(),
        }
    }
}

/// Every token stands for one lexeme of the text: it carries the location of
/// the lexeme's first character, which is no whitespace, and the lexemes
/// follow one another from left to right.
pub proof fn lemma_tokens_follow_the_text(s: Seq<char>, file: Seq<char>, p: int)
    requires
        0 <= p <= s.len(),
        lex_from(s, file, p) is Ok,
    ensures
        token_starts(s, file, p).len() == lex_from(s, file, p)->Ok_0.len(),
        forall|k: int|
            0 <= k < token_starts(s, file, p).len() ==> {
                let start = #[trigger] token_starts(s, file, p)[k];
                &&& p <= start < s.len()
                &&& !whitespace(s[start])
                &&& lex_from(s, file, p)->Ok_0[k].location == location_at(s, file, start)
            },
        forall|j: int, k: int|
            0 <= j < k < token_starts(s, file, p).len() ==> token_starts(s, file, p)[j]
                < token_starts(s, file, p)[k],
    decreases s.len() - p,
{
    if p < s.len() {
        if whitespace(s[p]) {
            lemma_tokens_follow_the_text(s, file, p + 1);
        } else {
            lemma_scan_advances(s, file, p);
            match scan(s, file, p) {
                Scan::Token { token, end } => {
                    lemma_tokens_follow_the_text(s, file, end);
                    lemma_scan_keeps_location(s, file, p);
                    let rest = token_starts(s, file, end);
                    let starts = token_starts(s, file, p);
                    assert(starts == seq![p] + rest);
                    assert forall|j: int, k: int| 0 <= j < k < starts.len() implies starts[j]
                        < starts[k] by {
                        assert(starts[k] == rest[k - 1]);
                        if j > 0 {
                            assert(starts[j] == rest[j - 1]);
                        }
                    }
                    assert forall|k: int| 0 <= k < starts.len() implies {
                        let start = #[trigger] starts[k];
                        &&& p <= start < s.len()
                        &&& !whitespace(s[start])
                        &&& lex_from(s, file, p)->Ok_0[k].location == location_at(s, file, start)
                    } by {
                        if k > 0 {
                            assert(starts[k] == rest[k - 1]);
                        }
                    }
                },
                Scan::Failure { .. } => {},
            }
        }
    }
}

/// A token carries the location of its lexeme's first character.
pub proof fn lemma_scan_keeps_location(s: Seq<char>, file: Seq<char>, p: int)
    requires
        0 <= p < s.len(),
    ensures
        scan(s, file, p) matches Scan::Token { token, .. } ==> token.location == location_at(
            s,
            file,
            p,
        ),
{
}

/// The first character of the text, and each one behind a line feed, stands
/// at column one, and a line feed ends its line: the line number behind it is
/// one more.
pub proof fn lemma_lines_start_at_column_one(s: Seq<char>, file: Seq<char>, p: int)
    requires
        0 <= p <= s.len(),
        p == 0 || s[p - 1] == '\n',
    ensures
        location_at(s, file, p).column == 1,
        p == 0 ==> location_at(s, file, p).line == 1,
        p > 0 ==> location_at(s, file, p).line == location_at(s, file, p - 1).line + 1,
{
}

/// Whether location `a` comes before location `b` in reading order.
pub open spec fn comes_before(a: LocationView, b: LocationView) -> bool {
    a.line < b.line || (a.line == b.line && a.column < b.column)
}

/// Behind in the text is behind in reading order.
pub proof fn lemma_locations_grow(s: Seq<char>, file: Seq<char>, p: int, q: int)
    requires
        0 <= p < q <= s.len(),
    ensures
        comes_before(location_at(s, file, p), location_at(s, file, q)),
    decreases q - p,
{
    lemma_line_start_bounds(s, p);
    lemma_line_start_bounds(s, q);
    if p + 1 < q {
        lemma_locations_grow(s, file, p, q - 1);
        lemma_line_start_bounds(s, q - 1);
    }
}

/// The tokens come in the order in which their lexemes stand in the text:
/// each one's location comes before the next one's.
pub proof fn lemma_tokens_are_ordered(input: Seq<char>, file: Seq<char>, j: int, k: int)
    requires
        lexed(input, file) is Ok,
        0 <= j < k < lexed(input, file)->Ok_0.len(),
    ensures
        comes_before(lexed(input, file)->Ok_0[j].location, lexed(input, file)->Ok_0[k].location),
{
    lemma_tokens_follow_the_text(input, file, 0);
    let starts = token_starts(input, file, 0);
    assert(starts[j] < starts[k]);
    lemma_locations_grow(input, file, starts[j], starts[k]);
}

/// A text of whitespace alone has no token.
pub proof fn lemma_whitespace_has_no_token(input: Seq<char>, file: Seq<char>, p: int)
    requires
        0 <= p,
        forall|j: int| p <= j < input.len() ==> whitespace(#[trigger] input[j]),
    ensures
        lex_from(input, file, p) == Ok::<Seq<TokenView>, LexerErrorView>(Seq::empty()),
    decreases input.len() - p,
{
    if p < input.len() {
        assert(whitespace(input[p]));
        lemma_whitespace_has_no_token(input, file, p + 1);
    }
}

/// The index of the lexeme at which lexing `s` from `p` on fails, or the
/// length of `s` where it does not fail.
pub open spec fn failing_index(s: Seq<char>, file: Seq<char>, p: int) -> int
    decreases s.len() - p,
{
    if p < 0 || p >= s.len() {
        s.len() as int
    } else if whitespace(s[p]) {
        failing_index(s, file, p + 1)
    } else {
        match scan(s, file, p) {
            Scan::Token { end, .. } => {
                proof {
                    lemma_scan_advances(s, file, p);
                }
                failing_index(s, file, end)
            },
            Scan::Failure { .. } => p,
        }
    }
}

/// The error that lexing ends with is the error of one lexeme: the first
/// one, from the left, whose scan fails.
pub proof fn lemma_error_is_of_a_lexeme(s: Seq<char>, file: Seq<char>, p: int)
    requires
        0 <= p <= s.len(),
    ensures
        lex_from(s, file, p) is Err <==> failing_index(s, file, p) < s.len(),
        lex_from(s, file, p) matches Err(error) ==> {
            let at = failing_index(s, file, p);
            &&& p <= at < s.len()
            &&& !whitespace(s[at])
            &&& scan(s, file, at) matches Scan::Failure { error: raised, .. } && raised == error
        },
    decreases s.len() - p,
{
    if p < s.len() {
        if whitespace(s[p]) {
            lemma_error_is_of_a_lexeme(s, file, p + 1);
        } else {
            lemma_scan_advances(s, file, p);
            match scan(s, file, p) {
                Scan::Token { token, end } => {
                    lemma_error_is_of_a_lexeme(s, file, end);
                },
                Scan::Failure { .. } => {},
            }
        }
    }
}

/// Lexing that goes on behind errors agrees with lexing that ends at the
/// first one: where there is no error both give the same tokens, and where
/// there is one it is the first that recovery collects.
pub proof fn lemma_recovery_agrees(s: Seq<char>, file: Seq<char>, p: int)
    requires
        0 <= p <= s.len(),
    ensures
        match lex_from(s, file, p) {
            Ok(tokens) => recover_from(s, file, p) == (tokens, Seq::<LexerErrorView>::empty()),
            Err(error) => recover_from(s, file, p).1.len() > 0 && recover_from(s, file, p).1[0]
                == error,
        },
    decreases s.len() - p,
{
    if p < s.len() {
        if whitespace(s[p]) {
            lemma_recovery_agrees(s, file, p + 1);
        } else {
            lemma_scan_advances(s, file, p);
            lemma_recovery_agrees(s, file, scan(s, file, p).end());
        }
    }
}

/// Whether a block comment opens at index `p`.
pub open spec fn opens_comment(s: Seq<char>, p: int) -> bool {
    0 <= p && p + 1 < s.len() && s[p] == '/' && s[p + 1] == '*'
}

/// The kind of a lexeme's error goes by how the lexeme starts, and by that
/// alone: a quote gives an unterminated string, `/*` an unterminated comment,
/// another mark character an invalid mark, and a digit or a character that
/// starts nothing an unexpected character.
pub proof fn lemma_error_kind(s: Seq<char>, file: Seq<char>, p: int)
    requires
        0 <= p < s.len(),
        scan(s, file, p) is Failure,
    ensures
        ({
            let error = scan(s, file, p)->Failure_error;
            &&& error is UnterminatedString <==> is_quote(s[p])
            &&& error is UnterminatedComment <==> opens_comment(s, p)
            &&& error is InvalidMark <==> starts_mark(s[p]) && !opens_comment(s, p)
            &&& error is UnexpectedCharacter <==> !is_quote(s[p]) && !starts_mark(s[p])
            &&& !is_digit(s[p]) ==> error.location() == location_at(s, file, p)
            &&& is_quote(s[p]) ==> !scan_quoted(s, p + 1, s[p]).closed
            &&& opens_comment(s, p) ==> comment_close(s, p + 2) == s.len()
        }),
{
    reveal_strlit("/*");
    reveal_strlit("//");
    let first = s[p];
    if !is_quote(first) && starts_mark(first) {
        let end = mark_end(s, p + 1);
        let buffer = lexeme(first, s, p + 1, end);
        assert(buffer.len() == 1 + (end - (p + 1)));
        assert(buffer[0] == first);
        if end > p + 1 {
            assert(buffer[1] == s[p + 1]);
        }
        if buffer == "/*"@ {
            assert(buffer.len() == 2);
            assert(buffer[0] == '/' && buffer[1] == '*');
            lemma_comment_close_bounds(s, end);
        } else {
            if opens_comment(s, p) {
                assert(end == p + 2);
                assert(buffer =~= "/*"@);
            }
        }
    }
}

/// How many backslashes stand in a row just before index `at`, counted no
/// further back than `from`.
pub open spec fn backslashes_before(s: Seq<char>, from: int, at: int) -> int
    decreases at - from,
{
    if at <= from || s[at - 1] != '\\' {
        0
    } else {
        1 + backslashes_before(s, from, at - 1)
    }
}

/// Escape parity, from a place `k` of the body that an even number of
/// backslashes stands before.
proof fn lemma_parity_from(s: Seq<char>, from: int, k: int, quote_type: char)
    requires
        0 <= from <= k <= s.len(),
        backslashes_before(s, from, k) % 2 == 0,
    ensures
        scan_quoted(s, k, quote_type).closed ==> backslashes_before(
            s,
            from,
            scan_quoted(s, k, quote_type).end,
        ) % 2 == 0,
        forall|j: int|
            k <= j < scan_quoted(s, k, quote_type).end && #[trigger] s[j] == quote_type
                ==> backslashes_before(s, from, j) % 2 == 1,
    decreases s.len() - k,
{
    if k < s.len() && s[k] != '\n' && s[k] != quote_type {
        if s[k] == '\\' && k + 1 < s.len() && s[k + 1] != '\n' {
            assert(backslashes_before(s, from, k + 1) == 1 + backslashes_before(s, from, k));
            if s[k + 1] == '\\' {
                assert(backslashes_before(s, from, k + 2) == 2 + backslashes_before(s, from, k));
            } else {
                assert(backslashes_before(s, from, k + 2) == 0);
            }
            lemma_parity_from(s, from, k + 2, quote_type);
        } else {
            lemma_scan_quoted_bounds(s, k + 1, quote_type);
            if s[k] == '\\' {
                assert(scan_quoted(s, k + 1, quote_type).end == k + 1);
            } else {
                assert(backslashes_before(s, from, k + 1) == 0);
                lemma_parity_from(s, from, k + 1, quote_type);
            }
        }
    }
}

/// Escape parity: the quote that closes a literal has an even number of
/// backslashes in a row before it, and every quote of the same type inside
/// the body has an odd number. The body starts at `i`, behind the opening
/// quote.
pub proof fn lemma_escape_parity(s: Seq<char>, i: int, quote_type: char)
    requires
        0 <= i <= s.len(),
    ensures
        scan_quoted(s, i, quote_type).closed ==> s[scan_quoted(s, i, quote_type).end] == quote_type
            && backslashes_before(s, i, scan_quoted(s, i, quote_type).end) % 2 == 0,
        forall|j: int|
            i <= j < scan_quoted(s, i, quote_type).end && #[trigger] s[j] == quote_type
                ==> backslashes_before(s, i, j) % 2 == 1,
{
    lemma_scan_quoted_bounds(s, i, quote_type);
    lemma_parity_from(s, i, i, quote_type);
}

/// An unclosed quote gives an unterminated string, raised at the quote.
pub proof fn lemma_unclosed_quote(s: Seq<char>, file: Seq<char>, p: int)
    requires
        0 <= p < s.len(),
        is_quote(s[p]),
        !scan_quoted(s, p + 1, s[p]).closed,
    ensures
        lex_from(s, file, p) matches Err(error) && error is UnterminatedString && error.location()
            == location_at(s, file, p),
{
}

/// An unclosed `/*` gives an unterminated comment, raised at the `/*`.
pub proof fn lemma_unclosed_comment(s: Seq<char>, file: Seq<char>, p: int)
    requires
        opens_comment(s, p),
        comment_close(s, p + 2) == s.len(),
    ensures
        lex_from(s, file, p) matches Err(error) && error is UnterminatedComment && error.location()
            == location_at(s, file, p),
{
    reveal_strlit("/*");
    let end = mark_end(s, p + 1);
    assert(end == p + 2);
    assert(lexeme(s[p], s, p + 1, end) =~= "/*"@);
}

/// A lexeme that opens with `/*` is read as a block comment, whatever
/// follows: it gives a block comment token or an unterminated comment.
pub proof fn lemma_comment_opener_is_a_comment(s: Seq<char>, file: Seq<char>, p: int)
    requires
        opens_comment(s, p),
    ensures
        match scan(s, file, p) {
            Scan::Token { token, .. } => token.token_type is BlockComment,
            Scan::Failure { error, .. } => error is UnterminatedComment,
        },
{
    reveal_strlit("/*");
    assert(mark_end(s, p + 1) == p + 2);
    assert(lexeme(s[p], s, p + 1, p + 2) =~= "/*"@);
}

/// The openers of comments are no marks.
pub proof fn lemma_comment_openers_are_no_marks()
    ensures
        Mark::from_spelling("/*"@) is None,
        Mark::from_spelling("//"@) is None,
{
    Mark::lemma_reveal_spellings();
    reveal_strlit("/*");
    reveal_strlit("//");
    assert("/*"@.len() == 2 && "/*"@[0] == '/' && "/*"@[1] == '*');
    assert("//"@.len() == 2 && "//"@[0] == '/' && "//"@[1] == '/');
}

} // verus!
