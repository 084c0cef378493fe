use lexer::tokens::mark::Mark;
use lexer::tokens::token::{GetToken, Location, Token, TokenType};

fn generate_test(location: &Location, input: &str, mark: Mark) -> bool {
    Mark::get_token(location.clone(), &input.chars().collect::<Vec<char>>())
        == Some(Token {
            location: location.clone(),
            content: input.to_owned(),
            token_type: TokenType::Mark(mark),
        })
}

const MARKS: [(&str, Mark); 48] = [
    ("+", Mark::Add),
    ("+=", Mark::AddAssign),
    ("&&", Mark::And),
    ("=", Mark::Assign),
    ("@", Mark::At),
    ("!", Mark::Bang),
    ("&", Mark::BitAnd),
    ("&=", Mark::BitAndAssign),
    ("~", Mark::BitNot),
    ("~=", Mark::BitNotAssign),
    ("|", Mark::BitOr),
    ("|=", Mark::BitOrAssign),
    ("^", Mark::BitXor),
    ("^=", Mark::BitXorAssign),
    ("{", Mark::BraceOpen),
    ("}", Mark::BraceClose),
    ("[", Mark::BracketOpen),
    ("]", Mark::BracketClose),
    (":", Mark::Colon),
    (",", Mark::Comma),
    ("--", Mark::Decrease),
    ("/", Mark::Divide),
    ("/=", Mark::DivideAssign),
    (".", Mark::Dot),
    ("==", Mark::Equal),
    ("**", Mark::Exponentiation),
    (">", Mark::Greater),
    (">=", Mark::GreaterEqual),
    ("++", Mark::Increase),
    ("<", Mark::Less),
    ("<=", Mark::LessEqual),
    ("%", Mark::Modulo),
    ("%=", Mark::ModuloAssign),
    ("*", Mark::Multiply),
    ("*=", Mark::MultiplyAssign),
    ("!=", Mark::NotEqual),
    ("||", Mark::Or),
    ("(", Mark::ParenthesisOpen),
    (")", Mark::ParenthesisClose),
    ("?", Mark::QuestionMark),
    ("..", Mark::Range),
    (";", Mark::Semicolon),
    ("<<", Mark::ShiftLeft),
    ("<<=", Mark::ShiftLeftAssign),
    (">>", Mark::ShiftRight),
    (">>=", Mark::ShiftRightAssign),
    ("-", Mark::Subtract),
    ("-=", Mark::SubtractAssign),
];

#[test]
fn mark_test_display() {
    assert_eq!(&Mark::Add.to_string(), "+");
    assert_eq!(&Mark::AddAssign.to_string(), "+=");
    assert_eq!(&Mark::And.to_string(), "&&");
    assert_eq!(&Mark::Assign.to_string(), "=");
    assert_eq!(&Mark::At.to_string(), "@");
    assert_eq!(&Mark::Bang.to_string(), "!");
    assert_eq!(&Mark::BitAnd.to_string(), "&");
    assert_eq!(&Mark::BitAndAssign.to_string(), "&=");
    assert_eq!(&Mark::BitNot.to_string(), "~");
    assert_eq!(&Mark::BitNotAssign.to_string(), "~=");
    assert_eq!(&Mark::BitOr.to_string(), "|");
    assert_eq!(&Mark::BitOrAssign.to_string(), "|=");
    assert_eq!(&Mark::BitXor.to_string(), "^");
    assert_eq!(&Mark::BitXorAssign.to_string(), "^=");
    assert_eq!(&Mark::BraceOpen.to_string(), "{");
    assert_eq!(&Mark::BraceClose.to_string(), "}");
    assert_eq!(&Mark::BracketOpen.to_string(), "[");
    assert_eq!(&Mark::BracketClose.to_string(), "]");
    assert_eq!(&Mark::Colon.to_string(), ":");
    assert_eq!(&Mark::Comma.to_string(), ",");
    assert_eq!(&Mark::Decrease.to_string(), "--");
    assert_eq!(&Mark::Divide.to_string(), "/");
    assert_eq!(&Mark::DivideAssign.to_string(), "/=");
    assert_eq!(&Mark::Dot.to_string(), ".");
    assert_eq!(&Mark::Equal.to_string(), "==");
    assert_eq!(&Mark::Exponentiation.to_string(), "**");
    assert_eq!(&Mark::Greater.to_string(), ">");
    assert_eq!(&Mark::GreaterEqual.to_string(), ">=");
    assert_eq!(&Mark::Increase.to_string(), "++");
    assert_eq!(&Mark::Less.to_string(), "<");
    assert_eq!(&Mark::LessEqual.to_string(), "<=");
    assert_eq!(&Mark::Modulo.to_string(), "%");
    assert_eq!(&Mark::ModuloAssign.to_string(), "%=");
    assert_eq!(&Mark::Multiply.to_string(), "*");
    assert_eq!(&Mark::MultiplyAssign.to_string(), "*=");
    assert_eq!(&Mark::NotEqual.to_string(), "!=");
    assert_eq!(&Mark::Or.to_string(), "||");
    assert_eq!(&Mark::ParenthesisOpen.to_string(), "(");
    assert_eq!(&Mark::ParenthesisClose.to_string(), ")");
    assert_eq!(&Mark::QuestionMark.to_string(), "?");
    assert_eq!(&Mark::Range.to_string(), "..");
    assert_eq!(&Mark::Semicolon.to_string(), ";");
    assert_eq!(&Mark::ShiftLeft.to_string(), "<<");
    assert_eq!(&Mark::ShiftLeftAssign.to_string(), "<<=");
    assert_eq!(&Mark::ShiftRight.to_string(), ">>");
    assert_eq!(&Mark::ShiftRightAssign.to_string(), ">>=");
    assert_eq!(&Mark::Subtract.to_string(), "-");
    assert_eq!(&Mark::SubtractAssign.to_string(), "-=");
}

#[test]
fn test_mark() {
    let location: Location = Location { file: "tests".to_owned(), line: 1, column: 1 };

    assert!(generate_test(&location, "+", Mark::Add));
    assert!(generate_test(&location, "+=", Mark::AddAssign));
    assert!(generate_test(&location, "&&", Mark::And));
    assert!(generate_test(&location, "=", Mark::Assign));
    assert!(generate_test(&location, "@", Mark::At));
    assert!(generate_test(&location, "!", Mark::Bang));
    assert!(generate_test(&location, "&", Mark::BitAnd));
    assert!(generate_test(&location, "&=", Mark::BitAndAssign));
    assert!(generate_test(&location, "~", Mark::BitNot));
    assert!(generate_test(&location, "~=", Mark::BitNotAssign));
    assert!(generate_test(&location, "|", Mark::BitOr));
    assert!(generate_test(&location, "|=", Mark::BitOrAssign));
    assert!(generate_test(&location, "^", Mark::BitXor));
    assert!(generate_test(&location, "^=", Mark::BitXorAssign));
    assert!(generate_test(&location, "{", Mark::BraceOpen));
    assert!(generate_test(&location, "}", Mark::BraceClose));
    assert!(generate_test(&location, "[", Mark::BracketOpen));
    assert!(generate_test(&location, "]", Mark::BracketClose));
    assert!(generate_test(&location, ":", Mark::Colon));
    assert!(generate_test(&location, ",", Mark::Comma));
    assert!(generate_test(&location, "--", Mark::Decrease));
    assert!(generate_test(&location, "/", Mark::Divide));
    assert!(generate_test(&location, "/=", Mark::DivideAssign));
    assert!(generate_test(&location, ".", Mark::Dot));
    assert!(generate_test(&location, "==", Mark::Equal));
    assert!(generate_test(&location, "**", Mark::Exponentiation));
    assert!(generate_test(&location, ">", Mark::Greater));
    assert!(generate_test(&location, ">=", Mark::GreaterEqual));
    assert!(generate_test(&location, "++", Mark::Increase));
    assert!(generate_test(&location, "<", Mark::Less));
    assert!(generate_test(&location, "<=", Mark::LessEqual));
    assert!(generate_test(&location, "%", Mark::Modulo));
    assert!(generate_test(&location, "%=", Mark::ModuloAssign));
    assert!(generate_test(&location, "*", Mark::Multiply));
    assert!(generate_test(&location, "*=", Mark::MultiplyAssign));
    assert!(generate_test(&location, "!=", Mark::NotEqual));
    assert!(generate_test(&location, "||", Mark::Or));
    assert!(generate_test(&location, "(", Mark::ParenthesisOpen));
    assert!(generate_test(&location, ")", Mark::ParenthesisClose));
    assert!(generate_test(&location, "?", Mark::QuestionMark));
    assert!(generate_test(&location, "..", Mark::Range));
    assert!(generate_test(&location, ";", Mark::Semicolon));
    assert!(generate_test(&location, "<<", Mark::ShiftLeft));
    assert!(generate_test(&location, "<<=", Mark::ShiftLeftAssign));
    assert!(generate_test(&location, ">>", Mark::ShiftRight));
    assert!(generate_test(&location, ">>=", Mark::ShiftRightAssign));
    assert!(generate_test(&location, "-", Mark::Subtract));
    assert!(generate_test(&location, "-=", Mark::SubtractAssign));
    assert_eq!(Mark::get_token(location.clone(), &" ".chars().collect::<Vec<char>>()), None);
}

#[test]
fn marks_lex_to_themselves() {
    for (text, mark) in MARKS {
        assert_eq!(
            lexer::lex::lex(text, "<stdin>"),
            Ok(vec![Token {
                location: Location::default(),
                content: text.to_owned(),
                token_type: TokenType::Mark(mark),
            }])
        );
    }
}

#[test]
fn comment_openers_are_no_marks() {
    let location: Location = Location::default();
    assert_eq!(Mark::get_token(location.clone(), &vec!['/', '*']), None);
    assert_eq!(Mark::get_token(location.clone(), &vec!['/', '/']), None);
    assert_eq!(Mark::get_token(location, &vec![]), None);
}
