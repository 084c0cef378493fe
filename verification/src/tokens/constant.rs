//! Type names.

use vstd::prelude::*;
use crate::characters::{matches_text};
use crate::tokens::token::{GetToken, Location, Token, TokenType};

verus! {

/// The name of a type (`str`, `int`, `bool`), not a value of it.
#[derive(Clone, Copy, Debug, PartialEq, Eq, Structural, Hash, PartialOrd, Ord)]
pub enum Type {
    /// The `str` type. Alias: `string`.
    Str,
    /// The `int` type. Alias: `integer`.
    Int,
    /// The `bool` type. Alias: `boolean`.
    Bool,
}

impl Type {
    /// The canonical spelling, which is the long one.
    pub open spec fn spelling(self) -> Seq<char> {
        match self {
            Type::Str => "string"@,
            Type::Int => "integer"@,
            Type::Bool => "boolean"@,
        }
    }

    /// The short spelling.
    pub open spec fn alias(self) -> Seq<char> {
        match self {
            Type::Str => "str"@,
            Type::Int => "int"@,
            Type::Bool => "bool"@,
        }
    }

    /// The type that a buffer names, by either spelling.
    pub open spec fn from_spelling(buffer: Seq<char>) -> Option<Type> {
        if buffer == "str"@ || buffer == "string"@ {
            Some(Type::Str)
        } else if buffer == "int"@ || buffer == "integer"@ {
            Some(Type::Int)
        } else if buffer == "bool"@ || buffer == "boolean"@ {
            Some(Type::Bool)
        } else {
            None
        }
    }

    /// Every spelling and alias names its own type.
    pub proof fn lemma_spellings(self)
        ensures
            Type::from_spelling(self.spelling()) == Some(self),
            Type::from_spelling(self.alias()) == Some(self),
    {
        reveal_strlit("str");
        reveal_strlit("string");
        reveal_strlit("int");
        reveal_strlit("integer");
        reveal_strlit("bool");
        reveal_strlit("boolean");
        match self {
            Type::Str => {},
            Type::Int => {
                assert("integer"@[0] != "str"@[0]);
                assert("int"@[0] != "str"@[0]);
            },
            Type::Bool => {
                assert("boolean"@[0] != "str"@[0]);
                assert("boolean"@[0] != "int"@[0]);
                assert("bool"@[0] != "str"@[0]);
                assert("bool"@[0] != "int"@[0]);
            },
        }
    }

    /// A buffer names a type only by its spelling or its alias.
    pub proof fn lemma_from_spelling(buffer: Seq<char>)
        ensures
            match Type::from_spelling(buffer) {
                Some(name) => buffer == name.spelling() || buffer == name.alias(),
                None => forall|name: Type| buffer != name.spelling() && buffer != name.alias(),
            },
    {
        assert forall|name: Type| Type::from_spelling(buffer) is None implies buffer
            != name.spelling() && buffer != name.alias() by {
            name.lemma_spellings();
        }
    }

    /// The canonical spelling.
    pub fn as_str(&self) -> (text: &'static str)
        ensures
            text@ == self.spelling(),
    {
        match self {
            Type::Str => "string",
            Type::Int => "integer",
            Type::Bool => "boolean",
        }
    }

    /// The canonical spelling, as the type is shown to a reader.
    pub fn to_string(&self) -> (text: String)
        ensures
            text@ == self.spelling(),
    {
        self.as_str().to_owned()
    }

    /// Looks a buffer up in the table of type names.
    pub fn from_buffer(buffer: &Vec<char>) -> (name: Option<Type>)
        ensures
            name == Type::from_spelling(buffer@),
    {
        if matches_text(buffer, "str") || matches_text(buffer, "string") {
            Some(Type::Str)
        } else if matches_text(buffer, "int") || matches_text(buffer, "integer") {
            Some(Type::Int)
        } else if matches_text(buffer, "bool") || matches_text(buffer, "boolean") {
            Some(Type::Bool)
        } else {
            None
        }
    }
}

impl GetToken for Type {
    open spec fn classify(buffer: Seq<char>) -> Option<(TokenType, Seq<char>)> {
        match Type::from_spelling(buffer) {
            Some(name) => Some((TokenType::Type(name), name.spelling())),
            None => None,
        }
    }

    fn get_token(location: Location, buffer: &Vec<char>) -> (token: Option<Token>) {
        match Type::from_buffer(buffer) {
            Some(name) => Some(
                Token { location, content: name.to_string(), token_type: TokenType::Type(name) },
            ),
            None => None,
        }
    }
}

} // verus!
