//! Tokens, their types and their locations.

use vstd::prelude::*;
use vstd::std_specs::cmp::PartialEqSpecImpl;
use vstd::std_specs::convert::FromSpecImpl;
use crate::characters::{matches_text, to_chars, to_text};
use crate::text::{decimal, extend, to_decimal};
use crate::tokens::constant::Type;
use crate::tokens::keyword::Keyword;
use crate::tokens::mark::Mark;

verus! {

/// A table of lexemes: what a buffer of characters is, if the table knows it.
pub trait GetToken {
    /// The type and the canonical content of the token that a buffer spells,
    /// if it spells one of this table.
    spec fn classify(buffer: Seq<char>) -> Option<(TokenType, Seq<char>)>;

    /// Looks the buffer up. The token carries the given location, which is
    /// that of the buffer's first character.
    fn get_token(location: Location, buffer: &Vec<char>) -> (token: Option<Token>)
        ensures
            match Self::classify(buffer@) {
                Some((token_type, content)) => token matches Some(found) && found@ == (TokenView {
                    location: location@,
                    content,
                    token_type,
                }),
                None => token is None,
            },
    ;
}

/// A literal: a value written out in the source.
#[derive(Clone, Copy, Debug, PartialEq, Eq, Structural, Hash, PartialOrd, Ord)]
pub enum Literal {
    /// A quoted literal, such as `"hello"` or `'world'`.
    String,
    /// Digits without a decimal point, such as `123` or `1_000_000`.
    Integer,
    /// Digits with one decimal point, such as `1.5`.
    Float,
    /// The `true` literal.
    True,
    /// The `false` literal.
    False,
    /// The `none` literal, the absence of a value. Alias: `None`.
    Null,
}

impl Literal {
    /// How a literal is called in a message.
    pub open spec fn description(self) -> Seq<char> {
        match self {
            Literal::String => "string literal"@,
            Literal::Integer => "integer literal"@,
            Literal::Float => "float literal"@,
            Literal::True => "`true`"@,
            Literal::False => "`false`"@,
            Literal::Null => "`none`"@,
        }
    }

    /// The literal that a word spells.
    pub open spec fn from_spelling(buffer: Seq<char>) -> Option<Literal> {
        if buffer == "true"@ {
            Some(Literal::True)
        } else if buffer == "false"@ {
            Some(Literal::False)
        } else if buffer == "none"@ || buffer == "None"@ {
            Some(Literal::Null)
        } else {
            None
        }
    }

    /// The canonical spelling of a literal that is a word.
    pub open spec fn spelling(self) -> Seq<char>
        recommends
            self is True || self is False || self is Null,
    {
        match self {
            Literal::True => "true"@,
            Literal::False => "false"@,
            _ => "none"@,
        }
    }

    /// Every spelling and alias of a literal word names that literal.
    pub proof fn lemma_spellings()
        ensures
            Literal::from_spelling("true"@) == Some(Literal::True),
            Literal::from_spelling("false"@) == Some(Literal::False),
            Literal::from_spelling("none"@) == Some(Literal::Null),
            Literal::from_spelling("None"@) == Some(Literal::Null),
    {
        reveal_strlit("true");
        reveal_strlit("false");
        reveal_strlit("none");
        reveal_strlit("None");
        assert("false"@[0] != "true"@[0]);
        assert("none"@[0] != "true"@[0]);
        assert("none"@[0] != "false"@[0]);
        assert("None"@[0] != "true"@[0]);
        assert("None"@[0] != "false"@[0]);
    }

    /// How the literal is called in a message.
    pub fn to_string(&self) -> (text: String)
        ensures
            text@ == self.description(),
    {
        match self {
            Literal::String => "string literal".to_owned(),
            Literal::Integer => "integer literal".to_owned(),
            Literal::Float => "float literal".to_owned(),
            Literal::True => "`true`".to_owned(),
            Literal::False => "`false`".to_owned(),
            Literal::Null => "`none`".to_owned(),
        }
    }

    /// Looks a buffer up in the table of literal words.
    pub fn from_buffer(buffer: &Vec<char>) -> (literal: Option<Literal>)
        ensures
            literal == Literal::from_spelling(buffer@),
    {
        if matches_text(buffer, "true") {
            Some(Literal::True)
        } else if matches_text(buffer, "false") {
            Some(Literal::False)
        } else if matches_text(buffer, "none") || matches_text(buffer, "None") {
            Some(Literal::Null)
        } else {
            None
        }
    }
}

impl GetToken for Literal {
    open spec fn classify(buffer: Seq<char>) -> Option<(TokenType, Seq<char>)> {
        match Literal::from_spelling(buffer) {
            Some(literal) => Some((TokenType::Literal(literal), literal.spelling())),
            None => None,
        }
    }

    fn get_token(location: Location, buffer: &Vec<char>) -> (token: Option<Token>) {
        match Literal::from_buffer(buffer) {
            Some(Literal::True) => Some(
                Token {
                    location,
                    content: "true".to_owned(),
                    token_type: TokenType::Literal(Literal::True),
                },
            ),
            Some(Literal::False) => Some(
                Token {
                    location,
                    content: "false".to_owned(),
                    token_type: TokenType::Literal(Literal::False),
                },
            ),
            Some(literal) => Some(
                Token { location, content: "none".to_owned(), token_type: TokenType::Literal(literal) },
            ),
            None => None,
        }
    }
}

/// The type of a token.
#[derive(Clone, Copy, Debug, PartialEq, Eq, Structural, Hash, PartialOrd, Ord)]
pub enum TokenType {
    /// The name of a type, such as `str`.
    Type(Type),
    /// A literal, such as `1`.
    Literal(Literal),
    /// A keyword, such as `break`.
    Keyword(Keyword),
    /// A mark, such as `==`.
    Mark(Mark),
    /// An identifier, such as `my_var`.
    Identifier,
    /// A comment that runs to the end of its line.
    Comment,
    /// A comment between `/*` and `*/`.
    BlockComment,
}

impl TokenType {
    /// How a token type is called in a message.
    pub open spec fn description(self) -> Seq<char> {
        match self {
            TokenType::Type(name) => name.spelling(),
            TokenType::Literal(literal) => literal.description(),
            TokenType::Keyword(keyword) => keyword.spelling(),
            TokenType::Mark(mark) => mark.spelling(),
            TokenType::Identifier => "identifier"@,
            TokenType::Comment => "comment"@,
            TokenType::BlockComment => "block comment"@,
        }
    }

    /// How the token type is called in a message.
    pub fn to_string(&self) -> (text: String)
        ensures
            text@ == self.description(),
    {
        match self {
            TokenType::Type(name) => name.to_string(),
            TokenType::Literal(literal) => literal.to_string(),
            TokenType::Keyword(keyword) => keyword.to_string(),
            TokenType::Mark(mark) => mark.to_string(),
            TokenType::Identifier => "identifier".to_owned(),
            TokenType::Comment => "comment".to_owned(),
            TokenType::BlockComment => "block comment".to_owned(),
        }
    }
}

/// Where a token starts: the file, and the line and column of its first
/// character, both counted from one.
#[derive(Debug, PartialEq, Eq, Hash, PartialOrd, Ord)]
pub struct Location {
    /// The file the token is from.
    pub file: String,
    /// The line the token starts in.
    pub line: usize,
    /// The column the token starts at.
    pub column: usize,
}

/// A location as contracts see it.
pub struct LocationView {
    pub file: Seq<char>,
    pub line: int,
    pub column: int,
}

impl View for Location {
    type V = LocationView;

    open spec fn view(&self) -> LocationView {
        LocationView { file: self.file@, line: self.line as int, column: self.column as int }
    }
}

/// A location as it is written: the file, the line and the column, with
/// colons between them.
pub open spec fn location_text(location: LocationView) -> Seq<char> {
    location.file + seq![':'] + decimal(location.line) + seq![':'] + decimal(location.column)
}

impl Location {
    /// The location as characters: `file:line:column`.
    pub fn to_chars(&self) -> (text: Vec<char>)
        ensures
            text@ == location_text(self@),
    {
        let mut text = to_chars(self.file.as_str());
        text.push(':');
        extend(&mut text, &to_decimal(self.line));
        text.push(':');
        extend(&mut text, &to_decimal(self.column));
        text
    }

    /// The location as it is shown to a reader: `file:line:column`.
    pub fn to_string(&self) -> (text: String)
        ensures
            text@ == location_text(self@),
    {
        to_text(&self.to_chars())
    }
}

impl Clone for Location {
    fn clone(&self) -> (copy: Location)
        ensures
            copy@ == self@,
    {
        Location { file: self.file.clone(), line: self.line, column: self.column }
    }
}

impl Default for Location {
    /// The first character of standard input.
    fn default() -> (location: Location)
        ensures
            location@ == (LocationView { file: "<stdin>"@, line: 1, column: 1 }),
    {
        Location { file: "<stdin>".to_owned(), line: 1, column: 1 }
    }
}

/// A token: one lexeme of the source, with its type and where it starts.
#[derive(Clone, Debug, PartialEq, Eq, Hash, PartialOrd, Ord)]
pub struct Token {
    /// Where the token starts.
    pub location: Location,
    /// The lexeme; for a quoted literal its decoded body, for a comment its
    /// trimmed text, for an alias the canonical spelling.
    pub content: String,
    /// The type of the token.
    pub token_type: TokenType,
}

/// A token as contracts see it.
pub struct TokenView {
    pub location: LocationView,
    pub content: Seq<char>,
    pub token_type: TokenType,
}

impl View for Token {
    type V = TokenView;

    open spec fn view(&self) -> TokenView {
        TokenView {
            location: self.location@,
            content: self.content@,
            token_type: self.token_type,
        }
    }
}

/// The views of a sequence of tokens.
pub open spec fn token_views(tokens: Seq<Token>) -> Seq<TokenView> {
    tokens.map_values(|token: Token| token@)
}

/// A token without a location, to compare tokens with.
#[derive(Clone, Debug, Eq, Hash, PartialOrd, Ord)]
pub struct DummyToken {
    /// The content. It counts only for an identifier, and only when it is not
    /// empty.
    pub content: String,
    /// The type of the token.
    pub token_type: TokenType,
}

impl DummyToken {
    /// Whether this stands for the given token: the types are the same, and
    /// for an identifier with a content the contents are the same too.
    pub open spec fn stands_for(&self, token: &Token) -> bool {
        &&& self.token_type == token.token_type
        &&& (self.token_type is Identifier && self.content@.len() > 0) ==> self.content@
            == token.content@
    }
}

impl PartialEq<Token> for DummyToken {
    fn eq(&self, other: &Token) -> (same: bool) {
        if !(self.token_type == other.token_type) {
            return false;
        }
        let named = match self.token_type {
            TokenType::Identifier => !self.content.as_str().is_empty(),
            _ => false,
        };
        if named {
            self.content == other.content
        } else {
            true
        }
    }
}

impl PartialEqSpecImpl<Token> for DummyToken {
    open spec fn obeys_eq_spec() -> bool {
        true
    }

    open spec fn eq_spec(&self, other: &Token) -> bool {
        self.stands_for(other)
    }
}

impl PartialEq for DummyToken {
    fn eq(&self, other: &DummyToken) -> (same: bool) {
        self.token_type == other.token_type && self.content == other.content
    }
}

impl PartialEqSpecImpl for DummyToken {
    open spec fn obeys_eq_spec() -> bool {
        true
    }

    open spec fn eq_spec(&self, other: &DummyToken) -> bool {
        self.token_type == other.token_type && self.content@ == other.content@
    }
}

impl From<Token> for DummyToken {
    fn from(value: Token) -> (dummy: DummyToken) {
        DummyToken { content: value.content, token_type: value.token_type }
    }
}

impl FromSpecImpl<Token> for DummyToken {
    open spec fn obeys_from_spec() -> bool {
        true
    }

    open spec fn from_spec(value: Token) -> DummyToken {
        DummyToken { content: value.content, token_type: value.token_type }
    }
}

} // verus!
