use lexer::tokens::constant::Type;
use lexer::tokens::token::{GetToken, Location, Token, TokenType};

#[test]
fn constant_test_display() {
    assert_eq!(&Type::Str.to_string(), "string");
    assert_eq!(&Type::Int.to_string(), "integer");
    assert_eq!(&Type::Bool.to_string(), "boolean");
}

#[test]
fn test_type() {
    let location: Location = Location { file: "tests".to_owned(), line: 1, column: 1 };

    assert_eq!(
        Type::get_token(location.clone(), &"str".chars().collect::<Vec<char>>()),
        Some(Token {
            location: location.clone(),
            content: "string".to_owned(),
            token_type: TokenType::Type(Type::Str),
        })
    );
    assert_eq!(
        Type::get_token(location.clone(), &"string".chars().collect::<Vec<char>>()),
        Some(Token {
            location: location.clone(),
            content: "string".to_owned(),
            token_type: TokenType::Type(Type::Str),
        },)
    );
    assert_eq!(
        Type::get_token(location.clone(), &"int".chars().collect::<Vec<char>>()),
        Some(Token {
            location: location.clone(),
            content: "integer".to_owned(),
            token_type: TokenType::Type(Type::Int),
        },)
    );
    assert_eq!(
        Type::get_token(location.clone(), &"integer".chars().collect::<Vec<char>>()),
        Some(Token {
            location: location.clone(),
            content: "integer".to_owned(),
            token_type: TokenType::Type(Type::Int),
        },)
    );
    assert_eq!(
        Type::get_token(location.clone(), &"bool".chars().collect::<Vec<char>>()),
        Some(Token {
            location: location.clone(),
            content: "boolean".to_owned(),
            token_type: TokenType::Type(Type::Bool),
        },)
    );
    assert_eq!(
        Type::get_token(location.clone(), &"boolean".chars().collect::<Vec<char>>()),
        Some(Token {
            location: location.clone(),
            content: "boolean".to_owned(),
            token_type: TokenType::Type(Type::Bool),
        },)
    );
    assert_eq!(Type::get_token(location.clone(), &"/".chars().collect::<Vec<char>>()), None);
}

#[test]
fn type_names_lex_to_their_canonical_spelling() {
    for (text, name) in [
        ("str", Type::Str),
        ("string", Type::Str),
        ("int", Type::Int),
        ("integer", Type::Int),
        ("bool", Type::Bool),
        ("boolean", Type::Bool),
    ] {
        assert_eq!(
            lexer::lex::lex(text, "<stdin>"),
            Ok(vec![Token {
                location: Location::default(),
                content: name.to_string(),
                token_type: TokenType::Type(name),
            }])
        );
    }
}
