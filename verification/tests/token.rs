use lexer::error::LexerError;
use lexer::iterator::{ConditionalPeeking, Cursor, Position};
use lexer::tokens::mark::Mark;
use lexer::tokens::token::{DummyToken, GetToken, Literal, Location, Token, TokenType};

#[test]
fn test_literal_display() {
    assert_eq!(&Literal::String.to_string(), "string literal");
    assert_eq!(&Literal::Integer.to_string(), "integer literal");
    assert_eq!(&Literal::True.to_string(), "`true`");
    assert_eq!(&Literal::False.to_string(), "`false`");
    assert_eq!(&Literal::Null.to_string(), "`none`");
}

#[test]
fn float_literal_display() {
    assert_eq!(&Literal::Float.to_string(), "float literal");
}

#[test]
fn test_literal() {
    let location: Location = Location { file: "tests".to_owned(), line: 1, column: 1 };

    assert_eq!(
        Literal::get_token(location.clone(), &"true".chars().collect::<Vec<char>>()),
        Some(Token {
            location: location.clone(),
            content: "true".to_owned(),
            token_type: TokenType::Literal(Literal::True),
        })
    );
    assert_eq!(
        Literal::get_token(location.clone(), &"false".chars().collect::<Vec<char>>()),
        Some(Token {
            location: location.clone(),
            content: "false".to_owned(),
            token_type: TokenType::Literal(Literal::False),
        })
    );
    assert_eq!(
        Literal::get_token(location.clone(), &"none".chars().collect::<Vec<char>>()),
        Some(Token {
            location: location.clone(),
            content: "none".to_owned(),
            token_type: TokenType::Literal(Literal::Null),
        })
    );
    assert_eq!(Literal::get_token(location.clone(), &"/".chars().collect::<Vec<char>>()), None);
}

#[test]
fn none_alias_is_canonicalized() {
    let location: Location = Location::default();
    assert_eq!(
        Literal::get_token(location.clone(), &"None".chars().collect::<Vec<char>>()),
        Some(Token {
            location,
            content: "none".to_owned(),
            token_type: TokenType::Literal(Literal::Null),
        })
    );
}

#[test]
fn test_lex_string() {
    let location: Location = Location { file: "tests".to_owned(), line: 1, column: 1 };

    let input: &str = "my string'"; // For lexing, the first quote has to be removed
    let mut iterator: Cursor = Cursor::new(input);

    assert_eq!(
        Literal::lex_string(&mut iterator, location.clone(), '\''),
        Ok(Token {
            location,
            content: "my string".to_owned(),
            token_type: TokenType::Literal(Literal::String)
        })
    );
}

#[test]
fn test_lex_mark() {
    let location: Location = Location { file: "tests".to_owned(), line: 1, column: 1 };

    let input: &str = "==";
    let mut iterator: Cursor = Cursor::new(input);

    assert_eq!(
        TokenType::lex_mark(&mut iterator, location.clone(), '='),
        Ok(Some(Token { location, content: "==".to_owned(), token_type: TokenType::Mark(Mark::Equal) }))
    );
}

#[test]
fn lex_mark_without_a_match_is_an_invalid_mark() {
    let location: Location = Location { file: "<stdin>".to_owned(), line: 1, column: 1 };
    let mut cursor: Cursor = Cursor::new("+-");
    assert_eq!(cursor.next(), Some('+'));
    match TokenType::lex_mark(&mut cursor, location.clone(), '+') {
        Err(LexerError::InvalidMark { location: raised_at, error }) => {
            assert_eq!(raised_at, location);
            assert_eq!(
                error,
                "error[E0001]: Syntax error\n --> <stdin>:1:1\n  |\n1 | +-\n  | ^^ Invalid mark\n  | -- help: Replace it with a valid mark\n  |"
            );
        }
        other => panic!("unexpected result: {other:?}"),
    }
    assert_eq!(cursor.next(), None);

    let mut cursor: Cursor = Cursor::new("-x");
    assert!(matches!(
        TokenType::lex_mark(&mut cursor, Location::default(), '('),
        Err(LexerError::InvalidMark { .. })
    ));
    assert_eq!(cursor.peek(), Some('x'));
}

#[test]
fn lex_mark_reads_comments() {
    let mut cursor: Cursor = Cursor::new("* a * / b */c");
    assert_eq!(
        TokenType::lex_mark(&mut cursor, Location::default(), '/'),
        Ok(Some(Token {
            location: Location::default(),
            content: "a * / b".to_owned(),
            token_type: TokenType::BlockComment
        }))
    );
    assert_eq!(cursor.peek(), Some('c'));

    let mut cursor: Cursor = Cursor::new("/ a \nb");
    assert_eq!(
        TokenType::lex_mark(&mut cursor, Location::default(), '/'),
        Ok(Some(Token {
            location: Location::default(),
            content: "a".to_owned(),
            token_type: TokenType::Comment
        }))
    );
    assert_eq!(cursor.peek(), Some('b'));
    assert_eq!(cursor.position(), Position::new(2, 1));

    let mut cursor: Cursor = Cursor::new("* a *");
    assert!(matches!(
        TokenType::lex_mark(&mut cursor, Location::default(), '/'),
        Err(LexerError::UnterminatedComment { .. })
    ));
    assert!(cursor.at_end());
}

#[test]
fn lex_number_and_word() {
    let mut cursor: Cursor = Cursor::new("2.5+x");
    assert_eq!(
        Literal::lex_number(&mut cursor, Location::default(), '1'),
        Ok(Token {
            location: Location::default(),
            content: "12.5".to_owned(),
            token_type: TokenType::Literal(Literal::Float)
        })
    );
    assert_eq!(cursor.peek(), Some('+'));

    let mut cursor: Cursor = Cursor::new("oo_bar1");
    assert_eq!(
        TokenType::lex_word(&mut cursor, Location::default(), 'f'),
        Token {
            location: Location::default(),
            content: "foo_bar".to_owned(),
            token_type: TokenType::Identifier
        }
    );
    assert_eq!(cursor.peek(), Some('1'));
}

#[test]
fn test_location_debug() {
    let location: Location = Location { file: "tests".to_owned(), line: 1, column: 1 };

    assert_eq!(&location.to_string(), "tests:1:1");
}

#[test]
fn location_display_writes_decimal_numbers() {
    let location: Location = Location { file: "a/b.il".to_owned(), line: 120, column: 4096 };
    assert_eq!(location.to_string(), "a/b.il:120:4096");
    let location: Location = Location { file: String::new(), line: 0, column: usize::MAX };
    assert_eq!(location.to_string(), format!(":0:{}", usize::MAX));
}

#[test]
fn default_location() {
    assert_eq!(Location::default(), Location { file: "<stdin>".to_owned(), line: 1, column: 1 });
}

#[test]
fn token_type_display() {
    assert_eq!(TokenType::Identifier.to_string(), "identifier");
    assert_eq!(TokenType::Comment.to_string(), "comment");
    assert_eq!(TokenType::BlockComment.to_string(), "block comment");
    assert_eq!(TokenType::Mark(Mark::Equal).to_string(), "==");
    assert_eq!(TokenType::Literal(Literal::Integer).to_string(), "integer literal");
}

#[test]
fn test_dummy_token() {
    let location: Location = Location { file: "tests".to_owned(), line: 1, column: 1 };

    assert!(
        DummyToken { content: String::new(), token_type: TokenType::Comment }
            == Token {
                location: location.clone(),
                content: String::new(),
                token_type: TokenType::Comment
            }
    );
    assert!(
        DummyToken { content: "test".to_owned(), token_type: TokenType::Identifier }
            == Token {
                location: location.clone(),
                content: "test".to_owned(),
                token_type: TokenType::Identifier
            }
    );
    assert!(
        DummyToken { content: "test".to_owned(), token_type: TokenType::Identifier }
            != Token { location, content: "not test".to_owned(), token_type: TokenType::Identifier }
    );
}

#[test]
fn dummy_token_ignores_content_unless_it_names_an_identifier() {
    let location: Location = Location::default();
    assert!(
        DummyToken { content: String::new(), token_type: TokenType::Identifier }
            == Token {
                location: location.clone(),
                content: "anything".to_owned(),
                token_type: TokenType::Identifier
            }
    );
    assert!(
        DummyToken { content: "x".to_owned(), token_type: TokenType::Comment }
            == Token { location: location.clone(), content: "y".to_owned(), token_type: TokenType::Comment }
    );
    assert!(
        DummyToken { content: String::new(), token_type: TokenType::Comment }
            != Token { location: location.clone(), content: String::new(), token_type: TokenType::BlockComment }
    );
    let token = Token { location, content: "x".to_owned(), token_type: TokenType::Identifier };
    assert_eq!(
        DummyToken::from(token),
        DummyToken { content: "x".to_owned(), token_type: TokenType::Identifier }
    );
}

#[test]
fn peek_while_leaves_the_first_mismatch() {
    let mut cursor: Cursor = Cursor::new("123abc");
    assert_eq!(cursor.peek_while(|c: char| c.is_ascii_digit()), vec!['1', '2', '3']);
    assert_eq!(cursor.peek(), Some('a'));
    assert_eq!(cursor.peek_while(|c: char| c.is_ascii_digit()), vec![]);
    assert_eq!(cursor.peek_until(|c: char| c == 'c'), vec!['a', 'b']);
    assert_eq!(cursor.next(), Some('c'));
    assert_eq!(cursor.peek_while(|_| true), vec![]);
    assert_eq!(cursor.next(), None);
}

#[test]
fn cursor_tracks_lines_and_columns() {
    let mut cursor: Cursor = Cursor::new("ab\nc\n");
    assert_eq!(cursor.position(), Position::new(1, 1));
    cursor.next();
    cursor.next();
    assert_eq!(cursor.position(), Position::new(1, 3));
    assert_eq!(cursor.current_line(), vec!['a', 'b']);
    cursor.next();
    assert_eq!(cursor.position(), Position::new(2, 1));
    assert_eq!(cursor.current_line(), vec!['c']);
    cursor.next();
    cursor.next();
    assert_eq!(cursor.position(), Position::new(3, 1));
    assert_eq!(cursor.current_line(), vec![]);
    assert!(cursor.at_end());
    assert_eq!(cursor.offset(), 5);
}

#[test]
fn underscores_do_not_count_for_the_value() {
    assert_eq!(Literal::significant_digits("1_000_000"), "1000000");
    assert_eq!(Literal::significant_digits("3_0.1_4"), "30.14");
    assert_eq!(Literal::significant_digits("_"), "");
    assert_eq!(Literal::significant_digits("42"), "42");
}
