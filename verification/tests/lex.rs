use lexer::error::LexerError;
use lexer::lex::lex;
use lexer::tokens::keyword::Keyword;
use lexer::tokens::mark::Mark;
use lexer::tokens::token::{Literal, Location, Token, TokenType};

fn token(line: usize, column: usize, content: &str, token_type: TokenType) -> Token {
    Token {
        location: Location { file: "<stdin>".to_owned(), line, column },
        content: content.to_owned(),
        token_type,
    }
}

#[test]
fn lex_test_lex() {
    assert_eq!(
        lex("1 + 1", "<stdin>"),
        Ok(vec![
            Token {
                location: Location { file: "<stdin>".to_owned(), line: 1, column: 1 },
                content: "1".to_owned(),
                token_type: TokenType::Literal(Literal::Integer),
            },
            Token {
                location: Location { file: "<stdin>".to_owned(), line: 1, column: 3 },
                content: "+".to_owned(),
                token_type: TokenType::Mark(Mark::Add),
            },
            Token {
                location: Location { file: "<stdin>".to_owned(), line: 1, column: 5 },
                content: "1".to_owned(),
                token_type: TokenType::Literal(Literal::Integer),
            },
        ])
    );

    assert_eq!(
        lex("my/* cool */code // works", "<stdin>"),
        Ok(vec![
            Token {
                location: Location { file: "<stdin>".to_owned(), line: 1, column: 1 },
                content: "my".to_owned(),
                token_type: TokenType::Identifier,
            },
            Token {
                location: Location { file: "<stdin>".to_owned(), line: 1, column: 3 },
                content: "cool".to_owned(),
                token_type: TokenType::BlockComment,
            },
            Token {
                location: Location { file: "<stdin>".to_owned(), line: 1, column: 13 },
                content: "code".to_owned(),
                token_type: TokenType::Identifier,
            },
            Token {
                location: Location { file: "<stdin>".to_owned(), line: 1, column: 18 },
                content: "works".to_owned(),
                token_type: TokenType::Comment,
            },
        ])
    );
}

#[test]
fn test_lex() {
    assert_eq!(
        lex("1 + 1", "<stdin>"),
        Ok(vec![
            token(1, 1, "1", TokenType::Literal(Literal::Integer)),
            token(1, 3, "+", TokenType::Mark(Mark::Add)),
            token(1, 5, "1", TokenType::Literal(Literal::Integer)),
        ])
    );
}

#[test]
fn empty_input_has_no_tokens() {
    assert_eq!(lex("", "<stdin>"), Ok(vec![]));
}

#[test]
fn whitespace_makes_no_token() {
    assert_eq!(lex(" \t \r\n  \n", "<stdin>"), Ok(vec![]));
    assert_eq!(
        lex("  a \t b  ", "<stdin>"),
        Ok(vec![
            token(1, 3, "a", TokenType::Identifier),
            token(1, 7, "b", TokenType::Identifier),
        ])
    );
}

#[test]
fn greedy_marks() {
    assert_eq!(lex("++", "<stdin>"), Ok(vec![token(1, 1, "++", TokenType::Mark(Mark::Increase))]));
    assert_eq!(
        lex("<<=", "<stdin>"),
        Ok(vec![token(1, 1, "<<=", TokenType::Mark(Mark::ShiftLeftAssign))])
    );
    assert_eq!(
        lex(">>=", "<stdin>"),
        Ok(vec![token(1, 1, ">>=", TokenType::Mark(Mark::ShiftRightAssign))])
    );
    assert_eq!(
        lex("a<b", "<stdin>"),
        Ok(vec![
            token(1, 1, "a", TokenType::Identifier),
            token(1, 2, "<", TokenType::Mark(Mark::Less)),
            token(1, 3, "b", TokenType::Identifier),
        ])
    );
    assert_eq!(lex("?", "<stdin>"), Ok(vec![token(1, 1, "?", TokenType::Mark(Mark::QuestionMark))]));
}

#[test]
fn block_comment_opener_is_never_a_mark() {
    assert_eq!(
        lex("/**/", "<stdin>"),
        Ok(vec![token(1, 1, "", TokenType::BlockComment)])
    );
    assert_eq!(
        lex("/* a\n b */ c", "<stdin>"),
        Ok(vec![
            token(1, 1, "a\n b", TokenType::BlockComment),
            token(2, 7, "c", TokenType::Identifier),
        ])
    );
    assert!(matches!(lex("/*/", "<stdin>"), Err(LexerError::UnterminatedComment { .. })));
}

#[test]
fn line_comment_runs_to_the_end_of_its_line() {
    assert_eq!(
        lex("a //  b c  \nd", "<stdin>"),
        Ok(vec![
            token(1, 1, "a", TokenType::Identifier),
            token(1, 3, "b c", TokenType::Comment),
            token(2, 1, "d", TokenType::Identifier),
        ])
    );
}

#[test]
fn invalid_mark_is_reported() {
    let result = lex("a =- b", "input.il");
    match result {
        Err(LexerError::InvalidMark { location, error }) => {
            assert_eq!(location, Location { file: "input.il".to_owned(), line: 1, column: 3 });
            assert_eq!(
                error,
                "error[E0001]: Syntax error\n --> input.il:1:3\n  |\n1 | a =- b\n  |   ^^ Invalid mark\n  |   -- help: Replace it with a valid mark\n  |"
            );
        }
        other => panic!("unexpected result: {other:?}"),
    }
}

#[test]
fn unexpected_character_is_reported() {
    let result = lex("#", "<stdin>");
    match result {
        Err(LexerError::UnexpectedCharacter { character, location, error }) => {
            assert_eq!(character, '#');
            assert_eq!(location, Location { file: "<stdin>".to_owned(), line: 1, column: 1 });
            assert_eq!(
                error,
                "error[E0001]: Syntax error\n --> <stdin>:1:1\n  |\n1 | #\n  | ^ Unexpected character\n  | - help: Remove this character\n  |"
            );
        }
        other => panic!("unexpected result: {other:?}"),
    }
}

#[test]
fn unterminated_string_is_reported_at_the_opening_quote() {
    let result = lex("\"abc", "<stdin>");
    match result {
        Err(LexerError::UnterminatedString { location, error }) => {
            assert_eq!(location, Location { file: "<stdin>".to_owned(), line: 1, column: 1 });
            assert_eq!(
                error,
                "error[E0002]: Unterminated string literal\n --> <stdin>:1:1\n  |\n1 | \"abc\n  | ^ String starts here\n  |     - help: Add `\"` here\n  |"
            );
        }
        other => panic!("unexpected result: {other:?}"),
    }
    assert!(matches!(
        lex("x = 'abc\n'", "<stdin>"),
        Err(LexerError::UnterminatedString { .. })
    ));
}

#[test]
fn unterminated_string_with_escaped_quote_hints_at_the_backslash() {
    let result = lex("s = \"abc\\\"", "<stdin>");
    match result {
        Err(LexerError::UnterminatedString { location, error }) => {
            assert_eq!(location, Location { file: "<stdin>".to_owned(), line: 1, column: 5 });
            assert_eq!(
                error,
                "error[E0002]: Unterminated string literal\n --> <stdin>:1:5\n  |\n1 | s = \"abc\\\"\n  |     ^ String starts here\n  |         - help: Remove the `\\` here\n  |"
            );
        }
        other => panic!("unexpected result: {other:?}"),
    }
}

#[test]
fn unterminated_comment_is_reported_at_its_opening() {
    let result = lex("a\nb /* c\nd", "f");
    match result {
        Err(LexerError::UnterminatedComment { location, error }) => {
            assert_eq!(location, Location { file: "f".to_owned(), line: 2, column: 3 });
            assert_eq!(
                error,
                "error[E0001]: Syntax error\n --> f:2:3\n  |\n2 | b /* c\n  |   ^^^^ Unterminated comment\n  |       - help: Add `*/` to close the comment\n  |"
            );
        }
        other => panic!("unexpected result: {other:?}"),
    }
}

#[test]
fn the_first_error_ends_lexing() {
    assert!(matches!(lex("# \"abc", "<stdin>"), Err(LexerError::UnexpectedCharacter { .. })));
    assert!(matches!(lex("\"abc #", "<stdin>"), Err(LexerError::UnterminatedString { .. })));
}

#[test]
fn strings_resolve_escapes_by_parity() {
    assert_eq!(
        lex("\"a\\\\\"", "<stdin>"),
        Ok(vec![token(1, 1, "a\\", TokenType::Literal(Literal::String))])
    );
    assert_eq!(
        lex("\"a\\\"b\"", "<stdin>"),
        Ok(vec![token(1, 1, "a\"b", TokenType::Literal(Literal::String))])
    );
    assert_eq!(
        lex("'it\\'s' \"x\\ty\\n\"", "<stdin>"),
        Ok(vec![
            token(1, 1, "it's", TokenType::Literal(Literal::String)),
            token(1, 9, "x\ty\n", TokenType::Literal(Literal::String)),
        ])
    );
    assert_eq!(
        lex("\"a\\qb\"", "<stdin>"),
        Ok(vec![token(1, 1, "a\\qb", TokenType::Literal(Literal::String))])
    );
    assert_eq!(
        lex("\"it's\" '\"'", "<stdin>"),
        Ok(vec![
            token(1, 1, "it's", TokenType::Literal(Literal::String)),
            token(1, 8, "\"", TokenType::Literal(Literal::String)),
        ])
    );
}

#[test]
fn numbers_are_integers_or_floats() {
    assert_eq!(
        lex("1_000 2.5 3_0.1_4", "<stdin>"),
        Ok(vec![
            token(1, 1, "1_000", TokenType::Literal(Literal::Integer)),
            token(1, 7, "2.5", TokenType::Literal(Literal::Float)),
            token(1, 11, "3_0.1_4", TokenType::Literal(Literal::Float)),
        ])
    );
}

#[test]
fn second_decimal_point_is_an_error() {
    let result = lex("x = 1.2.3", "<stdin>");
    match result {
        Err(LexerError::UnexpectedCharacter { character, location, .. }) => {
            assert_eq!(character, '.');
            assert_eq!(location, Location { file: "<stdin>".to_owned(), line: 1, column: 8 });
        }
        other => panic!("unexpected result: {other:?}"),
    }
    assert!(matches!(lex("1..2", "<stdin>"), Err(LexerError::UnexpectedCharacter { .. })));
}

#[test]
fn words_are_classified_in_order() {
    assert_eq!(
        lex("true none None while str integer whiles _x", "<stdin>"),
        Ok(vec![
            token(1, 1, "true", TokenType::Literal(Literal::True)),
            token(1, 6, "none", TokenType::Literal(Literal::Null)),
            token(1, 11, "none", TokenType::Literal(Literal::Null)),
            token(1, 16, "while", TokenType::Keyword(Keyword::While)),
            token(1, 22, "string", TokenType::Type(lexer::tokens::constant::Type::Str)),
            token(1, 26, "integer", TokenType::Type(lexer::tokens::constant::Type::Int)),
            token(1, 34, "whiles", TokenType::Identifier),
            token(1, 41, "_x", TokenType::Identifier),
        ])
    );
}

#[test]
fn lexing_twice_gives_the_same() {
    let input = "function f(a, b) { return a ** b; } // power\n\"s\" 1.5 #";
    assert_eq!(lex(input, "<stdin>"), lex(input, "<stdin>"));
    let input = "var x = 'y' /* z */ x++";
    assert_eq!(lex(input, "<stdin>"), lex(input, "<stdin>"));
}

#[test]
fn tokens_come_in_source_order() {
    let tokens = lex("a = b\n  + 1 // c\n/* d */ \"e\"", "<stdin>").unwrap();
    let places: Vec<(usize, usize)> =
        tokens.iter().map(|token| (token.location.line, token.location.column)).collect();
    assert_eq!(places, vec![(1, 1), (1, 3), (1, 5), (2, 3), (2, 5), (2, 7), (3, 1), (3, 9)]);
    for pair in places.windows(2) {
        assert!(pair[0] < pair[1]);
    }
}

#[test]
fn hello_world_program() {
    assert_eq!(
        lex("print(\"Hello World\");", "<stdin>"),
        Ok(vec![
            token(1, 1, "print", TokenType::Identifier),
            token(1, 6, "(", TokenType::Mark(Mark::ParenthesisOpen)),
            token(1, 7, "Hello World", TokenType::Literal(Literal::String)),
            token(1, 20, ")", TokenType::Mark(Mark::ParenthesisClose)),
            token(1, 21, ";", TokenType::Mark(Mark::Semicolon)),
        ])
    );
}

#[test]
fn error_descriptions() {
    let error = lex("a\n  #", "main.il").unwrap_err();
    assert_eq!(error.to_string(), "unexpected character `#` at main.il:2:3");
    assert_eq!(error.location().to_string(), "main.il:2:3");
    let error = lex("(-", "main.il").unwrap_err();
    assert_eq!(error.to_string(), "invalid mark at main.il:1:1");
    let error = lex("/* a", "main.il").unwrap_err();
    assert_eq!(error.to_string(), "unterminated comment at main.il:1:1");
    let error = lex(" 'a", "main.il").unwrap_err();
    assert_eq!(error.to_string(), "unterminated string at main.il:1:2");
    assert!(error.rendered().contains("String starts here"));
}

#[test]
fn letters_beyond_ascii_make_identifiers() {
    assert_eq!(
        lex("héllo 京 x", "<stdin>"),
        Ok(vec![
            token(1, 1, "héllo", TokenType::Identifier),
            token(1, 7, "京", TokenType::Identifier),
            token(1, 9, "x", TokenType::Identifier),
        ])
    );
}

#[test]
fn whitespace_beyond_ascii_is_skipped() {
    assert_eq!(
        lex("a\u{a0}b\u{3000}c", "<stdin>"),
        Ok(vec![
            token(1, 1, "a", TokenType::Identifier),
            token(1, 3, "b", TokenType::Identifier),
            token(1, 5, "c", TokenType::Identifier),
        ])
    );
}

#[test]
fn symbols_beyond_ascii_are_unexpected() {
    let result = lex("a 💝", "<stdin>");
    match result {
        Err(LexerError::UnexpectedCharacter { character, location, .. }) => {
            assert_eq!(character, '💝');
            assert_eq!(location, Location { file: "<stdin>".to_owned(), line: 1, column: 3 });
        }
        other => panic!("unexpected result: {other:?}"),
    }
    assert!(matches!(lex("٣", "<stdin>"), Err(LexerError::UnexpectedCharacter { .. })));
}

#[test]
fn recovery_collects_every_error() {
    let (tokens, errors) = lexer::lex::lex_recovering("a # b (- \"c\n d /* e", "<stdin>");
    assert_eq!(
        tokens,
        vec![
            token(1, 1, "a", TokenType::Identifier),
            token(1, 5, "b", TokenType::Identifier),
            token(2, 2, "d", TokenType::Identifier),
        ]
    );
    assert_eq!(errors.len(), 4);
    assert!(matches!(errors[0], LexerError::UnexpectedCharacter { character: '#', .. }));
    assert!(matches!(errors[1], LexerError::InvalidMark { .. }));
    assert!(matches!(errors[2], LexerError::UnterminatedString { .. }));
    assert!(matches!(errors[3], LexerError::UnterminatedComment { .. }));
    assert_eq!(errors[1].location().to_string(), "<stdin>:1:7");
    assert_eq!(errors[3].location().to_string(), "<stdin>:2:4");
    assert_eq!(Err(errors[0].clone()), lex("a # b (- \"c\n d /* e", "<stdin>"));
}

#[test]
fn recovery_without_errors_is_plain_lexing() {
    let input = "var x = 1.5; // done";
    let (tokens, errors) = lexer::lex::lex_recovering(input, "<stdin>");
    assert!(errors.is_empty());
    assert_eq!(Ok(tokens), lex(input, "<stdin>"));
}
