//! Keywords.

use vstd::prelude::*;
use crate::characters::matches_text;
use crate::tokens::token::{GetToken, Location, Token, TokenType};

verus! {

/// The reserved words.
#[derive(Clone, Copy, Debug, PartialEq, Eq, Structural, Hash, PartialOrd, Ord)]
pub enum Keyword {
    /// The `as` keyword. Brings an imported item under another name.
    As,
    /// The `break` keyword. Leaves a loop.
    Break,
    /// The `case` keyword. One arm of a `match`.
    Case,
    /// The `catch` keyword. Handles what a `try` block threw.
    Catch,
    /// The `class` keyword. Defines a class.
    Class,
    /// The `const` keyword. Defines a constant.
    Const,
    /// The `continue` keyword. Goes on with the next round of a loop.
    Continue,
    /// The `default` keyword. The arm of a `match` that takes what no `case` took.
    Default,
    /// The `else` keyword. The other branch of an `if`.
    Else,
    /// The `finally` keyword. Runs after a `try` block, whatever happened in it.
    Finally,
    /// The `for` keyword. A loop over an iterator.
    For,
    /// The `function` keyword. Defines a function.
    Function,
    /// The `if` keyword. Runs code on a condition.
    If,
    /// The `import` keyword. Brings in code of another module.
    Import,
    /// The `match` keyword. Chooses among `case` arms.
    Match,
    /// The `pub` keyword. Makes an item visible outside its scope.
    Pub,
    /// The `return` keyword. Returns from a function.
    Return,
    /// The `throw` keyword. Raises an exception.
    Throw,
    /// The `try` keyword. Runs code whose exceptions a `catch` handles.
    Try,
    /// The `use` keyword. Switches a language feature on.
    Use,
    /// The `var` keyword. Defines a variable.
    Var,
    /// The `while` keyword. A loop that runs as long as a condition holds.
    While,
}

impl Keyword {
    /// How the keyword is written.
    pub open spec fn spelling(self) -> Seq<char> {
        match self {
            Keyword::As => "as"@,
            Keyword::Break => "break"@,
            Keyword::Case => "case"@,
            Keyword::Catch => "catch"@,
            Keyword::Class => "class"@,
            Keyword::Const => "const"@,
            Keyword::Continue => "continue"@,
            Keyword::Default => "default"@,
            Keyword::Else => "else"@,
            Keyword::Finally => "finally"@,
            Keyword::For => "for"@,
            Keyword::Function => "function"@,
            Keyword::If => "if"@,
            Keyword::Import => "import"@,
            Keyword::Match => "match"@,
            Keyword::Pub => "pub"@,
            Keyword::Return => "return"@,
            Keyword::Throw => "throw"@,
            Keyword::Try => "try"@,
            Keyword::Use => "use"@,
            Keyword::Var => "var"@,
            Keyword::While => "while"@,
        }
    }

    /// The keyword that a buffer spells.
    pub open spec fn from_spelling(buffer: Seq<char>) -> Option<Keyword> {
        if buffer == "as"@ {
            Some(Keyword::As)
        } else if buffer == "break"@ {
            Some(Keyword::Break)
        } else if buffer == "case"@ {
            Some(Keyword::Case)
        } else if buffer == "catch"@ {
            Some(Keyword::Catch)
        } else if buffer == "class"@ {
            Some(Keyword::Class)
        } else if buffer == "const"@ {
            Some(Keyword::Const)
        } else if buffer == "continue"@ {
            Some(Keyword::Continue)
        } else if buffer == "default"@ {
            Some(Keyword::Default)
        } else if buffer == "else"@ {
            Some(Keyword::Else)
        } else if buffer == "finally"@ {
            Some(Keyword::Finally)
        } else if buffer == "for"@ {
            Some(Keyword::For)
        } else if buffer == "function"@ {
            Some(Keyword::Function)
        } else if buffer == "if"@ {
            Some(Keyword::If)
        } else if buffer == "import"@ {
            Some(Keyword::Import)
        } else if buffer == "match"@ {
            Some(Keyword::Match)
        } else if buffer == "pub"@ {
            Some(Keyword::Pub)
        } else if buffer == "return"@ {
            Some(Keyword::Return)
        } else if buffer == "throw"@ {
            Some(Keyword::Throw)
        } else if buffer == "try"@ {
            Some(Keyword::Try)
        } else if buffer == "use"@ {
            Some(Keyword::Use)
        } else if buffer == "var"@ {
            Some(Keyword::Var)
        } else if buffer == "while"@ {
            Some(Keyword::While)
        } else {
            None
        }
    }

    /// What the string literals of the table hold.
    pub proof fn lemma_reveal_spellings()
        ensures
            "as"@ == seq!['a', 's'],
            "break"@ == seq!['b', 'r', 'e', 'a', 'k'],
            "case"@ == seq!['c', 'a', 's', 'e'],
            "catch"@ == seq!['c', 'a', 't', 'c', 'h'],
            "class"@ == seq!['c', 'l', 'a', 's', 's'],
            "const"@ == seq!['c', 'o', 'n', 's', 't'],
            "continue"@ == seq!['c', 'o', 'n', 't', 'i', 'n', 'u', 'e'],
            "default"@ == seq!['d', 'e', 'f', 'a', 'u', 'l', 't'],
            "else"@ == seq!['e', 'l', 's', 'e'],
            "finally"@ == seq!['f', 'i', 'n', 'a', 'l', 'l', 'y'],
            "for"@ == seq!['f', 'o', 'r'],
            "function"@ == seq!['f', 'u', 'n', 'c', 't', 'i', 'o', 'n'],
            "if"@ == seq!['i', 'f'],
            "import"@ == seq!['i', 'm', 'p', 'o', 'r', 't'],
            "match"@ == seq!['m', 'a', 't', 'c', 'h'],
            "pub"@ == seq!['p', 'u', 'b'],
            "return"@ == seq!['r', 'e', 't', 'u', 'r', 'n'],
            "throw"@ == seq!['t', 'h', 'r', 'o', 'w'],
            "try"@ == seq!['t', 'r', 'y'],
            "use"@ == seq!['u', 's', 'e'],
            "var"@ == seq!['v', 'a', 'r'],
            "while"@ == seq!['w', 'h', 'i', 'l', 'e'],
    {
        reveal_strlit("as");
        reveal_strlit("break");
        reveal_strlit("case");
        reveal_strlit("catch");
        reveal_strlit("class");
        reveal_strlit("const");
        reveal_strlit("continue");
        reveal_strlit("default");
        reveal_strlit("else");
        reveal_strlit("finally");
        reveal_strlit("for");
        reveal_strlit("function");
        reveal_strlit("if");
        reveal_strlit("import");
        reveal_strlit("match");
        reveal_strlit("pub");
        reveal_strlit("return");
        reveal_strlit("throw");
        reveal_strlit("try");
        reveal_strlit("use");
        reveal_strlit("var");
        reveal_strlit("while");
        assert("as"@ =~= seq!['a', 's']);
        assert("break"@ =~= seq!['b', 'r', 'e', 'a', 'k']);
        assert("case"@ =~= seq!['c', 'a', 's', 'e']);
        assert("catch"@ =~= seq!['c', 'a', 't', 'c', 'h']);
        assert("class"@ =~= seq!['c', 'l', 'a', 's', 's']);
        assert("const"@ =~= seq!['c', 'o', 'n', 's', 't']);
        assert("continue"@ =~= seq!['c', 'o', 'n', 't', 'i', 'n', 'u', 'e']);
        assert("default"@ =~= seq!['d', 'e', 'f', 'a', 'u', 'l', 't']);
        assert("else"@ =~= seq!['e', 'l', 's', 'e']);
        assert("finally"@ =~= seq!['f', 'i', 'n', 'a', 'l', 'l', 'y']);
        assert("for"@ =~= seq!['f', 'o', 'r']);
        assert("function"@ =~= seq!['f', 'u', 'n', 'c', 't', 'i', 'o', 'n']);
        assert("if"@ =~= seq!['i', 'f']);
        assert("import"@ =~= seq!['i', 'm', 'p', 'o', 'r', 't']);
        assert("match"@ =~= seq!['m', 'a', 't', 'c', 'h']);
        assert("pub"@ =~= seq!['p', 'u', 'b']);
        assert("return"@ =~= seq!['r', 'e', 't', 'u', 'r', 'n']);
        assert("throw"@ =~= seq!['t', 'h', 'r', 'o', 'w']);
        assert("try"@ =~= seq!['t', 'r', 'y']);
        assert("use"@ =~= seq!['u', 's', 'e']);
        assert("var"@ =~= seq!['v', 'a', 'r']);
        assert("while"@ =~= seq!['w', 'h', 'i', 'l', 'e']);
    }

    /// Every spelling names its own keyword.
    pub proof fn lemma_spellings(self)
        ensures
            Keyword::from_spelling(self.spelling()) == Some(self),
    {
        Keyword::lemma_reveal_spellings();
    }

    /// A buffer names a keyword only by its spelling.
    pub proof fn lemma_from_spelling(buffer: Seq<char>)
        ensures
            match Keyword::from_spelling(buffer) {
                Some(keyword) => buffer == keyword.spelling(),
                None => forall|keyword: Keyword| buffer != keyword.spelling(),
            },
    {
        assert forall|keyword: Keyword| Keyword::from_spelling(buffer) is None implies buffer
            != keyword.spelling() by {
            keyword.lemma_spellings();
        }
    }

    /// How the keyword is written.
    pub fn as_str(&self) -> (text: &'static str)
        ensures
            text@ == self.spelling(),
    {
        match self {
            Keyword::As => "as",
            Keyword::Break => "break",
            Keyword::Case => "case",
            Keyword::Catch => "catch",
            Keyword::Class => "class",
            Keyword::Const => "const",
            Keyword::Continue => "continue",
            Keyword::Default => "default",
            Keyword::Else => "else",
            Keyword::Finally => "finally",
            Keyword::For => "for",
            Keyword::Function => "function",
            Keyword::If => "if",
            Keyword::Import => "import",
            Keyword::Match => "match",
            Keyword::Pub => "pub",
            Keyword::Return => "return",
            Keyword::Throw => "throw",
            Keyword::Try => "try",
            Keyword::Use => "use",
            Keyword::Var => "var",
            Keyword::While => "while",
        }
    }

    /// How the keyword is written.
    pub fn to_string(&self) -> (text: String)
        ensures
            text@ == self.spelling(),
    {
        self.as_str().to_owned()
    }

    /// Looks a buffer up in the table of keywords.
    pub fn from_buffer(buffer: &Vec<char>) -> (keyword: Option<Keyword>)
        ensures
            keyword == Keyword::from_spelling(buffer@),
    {
        if matches_text(buffer, "as") {
            Some(Keyword::As)
        } else if matches_text(buffer, "break") {
            Some(Keyword::Break)
        } else if matches_text(buffer, "case") {
            Some(Keyword::Case)
        } else if matches_text(buffer, "catch") {
            Some(Keyword::Catch)
        } else if matches_text(buffer, "class") {
            Some(Keyword::Class)
        } else if matches_text(buffer, "const") {
            Some(Keyword::Const)
        } else if matches_text(buffer, "continue") {
            Some(Keyword::Continue)
        } else if matches_text(buffer, "default") {
            Some(Keyword::Default)
        } else if matches_text(buffer, "else") {
            Some(Keyword::Else)
        } else if matches_text(buffer, "finally") {
            Some(Keyword::Finally)
        } else if matches_text(buffer, "for") {
            Some(Keyword::For)
        } else if matches_text(buffer, "function") {
            Some(Keyword::Function)
        } else if matches_text(buffer, "if") {
            Some(Keyword::If)
        } else if matches_text(buffer, "import") {
            Some(Keyword::Import)
        } else if matches_text(buffer, "match") {
            Some(Keyword::Match)
        } else if matches_text(buffer, "pub") {
            Some(Keyword::Pub)
        } else if matches_text(buffer, "return") {
            Some(Keyword::Return)
        } else if matches_text(buffer, "throw") {
            Some(Keyword::Throw)
        } else if matches_text(buffer, "try") {
            Some(Keyword::Try)
        } else if matches_text(buffer, "use") {
            Some(Keyword::Use)
        } else if matches_text(buffer, "var") {
            Some(Keyword::Var)
        } else if matches_text(buffer, "while") {
            Some(Keyword::While)
        } else {
            None
        }
    }
}

impl GetToken for Keyword {
    open spec fn classify(buffer: Seq<char>) -> Option<(TokenType, Seq<char>)> {
        match Keyword::from_spelling(buffer) {
            Some(keyword) => Some((TokenType::Keyword(keyword), keyword.spelling())),
            None => None,
        }
    }

    fn get_token(location: Location, buffer: &Vec<char>) -> (token: Option<Token>) {
        match Keyword::from_buffer(buffer) {
            Some(keyword) => Some(
                Token {
                    location,
                    content: keyword.to_string(),
                    token_type: TokenType::Keyword(keyword),
                },
            ),
            None => None,
        }
    }
}

} // verus!
