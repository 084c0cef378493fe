//! Marks: operators and punctuation.

use vstd::prelude::*;
use crate::characters::matches_text;
use crate::tokens::token::{GetToken, Location, Token, TokenType};

verus! {

/// The operators and the punctuation.
#[derive(Clone, Copy, Debug, PartialEq, Eq, Structural, Hash, PartialOrd, Ord)]
pub enum Mark {
    /// The `+` mark. Adds the right value to the left one.
    Add,
    /// The `+=` mark. Adds the right value to the variable.
    AddAssign,
    /// The `&&` mark. Logical and.
    And,
    /// The `=` mark. Assigns a value to a variable.
    Assign,
    /// The `@` mark. Reserved.
    At,
    /// The `!` mark. Logical not.
    Bang,
    /// The `&` mark. Bitwise and.
    BitAnd,
    /// The `&=` mark. Bitwise and, assigned to the variable.
    BitAndAssign,
    /// The `~` mark. Bitwise not.
    BitNot,
    /// The `~=` mark. Bitwise not, assigned to the variable.
    BitNotAssign,
    /// The `|` mark. Bitwise or.
    BitOr,
    /// The `|=` mark. Bitwise or, assigned to the variable.
    BitOrAssign,
    /// The `^` mark. Bitwise exclusive or.
    BitXor,
    /// The `^=` mark. Bitwise exclusive or, assigned to the variable.
    BitXorAssign,
    /// The `{` mark. Opens a block, a set or a dictionary.
    BraceOpen,
    /// The `}` mark. Closes a block, a set or a dictionary.
    BraceClose,
    /// The `[` mark. Opens an index or an array.
    BracketOpen,
    /// The `]` mark. Closes an index or an array.
    BracketClose,
    /// The `:` mark. Stands before a type, and between a key and its value.
    Colon,
    /// The `,` mark. Separates items.
    Comma,
    /// The `--` mark. Takes one from the left value.
    Decrease,
    /// The `/` mark. Divides the left value by the right one.
    Divide,
    /// The `/=` mark. Divides the variable by the right value.
    DivideAssign,
    /// The `.` mark. Reaches into a scope.
    Dot,
    /// The `==` mark. Whether both sides are equal.
    Equal,
    /// The `**` mark. Raises the left value to the power of the right one.
    Exponentiation,
    /// The `>` mark. Whether the left value is greater.
    Greater,
    /// The `>=` mark. Whether the left value is greater or the same.
    GreaterEqual,
    /// The `++` mark. Adds one to the left value.
    Increase,
    /// The `<` mark. Whether the left value is smaller.
    Less,
    /// The `<=` mark. Whether the left value is smaller or the same.
    LessEqual,
    /// The `%` mark. The remainder of a division.
    Modulo,
    /// The `%=` mark. The remainder of a division, assigned to the variable.
    ModuloAssign,
    /// The `*` mark. Multiplies both values.
    Multiply,
    /// The `*=` mark. Multiplies the variable by the right value.
    MultiplyAssign,
    /// The `!=` mark. Whether both sides differ.
    NotEqual,
    /// The `||` mark. Logical or.
    Or,
    /// The `(` mark. Opens parameters or a group.
    ParenthesisOpen,
    /// The `)` mark. Closes parameters or a group.
    ParenthesisClose,
    /// The `?` mark. Reserved.
    QuestionMark,
    /// The `..` mark. A range, written with spaces around it.
    Range,
    /// The `;` mark. Ends a statement.
    Semicolon,
    /// The `<<` mark. Shifts bits to the left.
    ShiftLeft,
    /// The `<<=` mark. Shifts bits to the left, assigned to the variable.
    ShiftLeftAssign,
    /// The `>>` mark. Shifts bits to the right.
    ShiftRight,
    /// The `>>=` mark. Shifts bits to the right, assigned to the variable.
    ShiftRightAssign,
    /// The `-` mark. Takes the right value from the left one.
    Subtract,
    /// The `-=` mark. Takes the right value from the variable.
    SubtractAssign,
}

impl Mark {
    /// How the mark is written.
    pub open spec fn spelling(self) -> Seq<char> {
        match self {
            Mark::Add => "+"@,
            Mark::AddAssign => "+="@,
            Mark::And => "&&"@,
            Mark::Assign => "="@,
            Mark::At => "@"@,
            Mark::Bang => "!"@,
            Mark::BitAnd => "&"@,
            Mark::BitAndAssign => "&="@,
            Mark::BitNot => "~"@,
            Mark::BitNotAssign => "~="@,
            Mark::BitOr => "|"@,
            Mark::BitOrAssign => "|="@,
            Mark::BitXor => "^"@,
            Mark::BitXorAssign => "^="@,
            Mark::BraceOpen => "{"@,
            Mark::BraceClose => "}"@,
            Mark::BracketOpen => "["@,
            Mark::BracketClose => "]"@,
            Mark::Colon => ":"@,
            Mark::Comma => ","@,
            Mark::Decrease => "--"@,
            Mark::Divide => "/"@,
            Mark::DivideAssign => "/="@,
            Mark::Dot => "."@,
            Mark::Equal => "=="@,
            Mark::Exponentiation => "**"@,
            Mark::Greater => ">"@,
            Mark::GreaterEqual => ">="@,
            Mark::Increase => "++"@,
            Mark::Less => "<"@,
            Mark::LessEqual => "<="@,
            Mark::Modulo => "%"@,
            Mark::ModuloAssign => "%="@,
            Mark::Multiply => "*"@,
            Mark::MultiplyAssign => "*="@,
            Mark::NotEqual => "!="@,
            Mark::Or => "||"@,
            Mark::ParenthesisOpen => "("@,
            Mark::ParenthesisClose => ")"@,
            Mark::QuestionMark => "?"@,
            Mark::Range => ".."@,
            Mark::Semicolon => ";"@,
            Mark::ShiftLeft => "<<"@,
            Mark::ShiftLeftAssign => "<<="@,
            Mark::ShiftRight => ">>"@,
            Mark::ShiftRightAssign => ">>="@,
            Mark::Subtract => "-"@,
            Mark::SubtractAssign => "-="@,
        }
    }

    /// The mark that a buffer spells.
    pub open spec fn from_spelling(buffer: Seq<char>) -> Option<Mark> {
        if buffer == "+"@ {
            Some(Mark::Add)
        } else if buffer == "+="@ {
            Some(Mark::AddAssign)
        } else if buffer == "&&"@ {
            Some(Mark::And)
        } else if buffer == "="@ {
            Some(Mark::Assign)
        } else if buffer == "@"@ {
            Some(Mark::At)
        } else if buffer == "!"@ {
            Some(Mark::Bang)
        } else if buffer == "&"@ {
            Some(Mark::BitAnd)
        } else if buffer == "&="@ {
            Some(Mark::BitAndAssign)
        } else if buffer == "~"@ {
            Some(Mark::BitNot)
        } else if buffer == "~="@ {
            Some(Mark::BitNotAssign)
        } else if buffer == "|"@ {
            Some(Mark::BitOr)
        } else if buffer == "|="@ {
            Some(Mark::BitOrAssign)
        } else if buffer == "^"@ {
            Some(Mark::BitXor)
        } else if buffer == "^="@ {
            Some(Mark::BitXorAssign)
        } else if buffer == "{"@ {
            Some(Mark::BraceOpen)
        } else if buffer == "}"@ {
            Some(Mark::BraceClose)
        } else if buffer == "["@ {
            Some(Mark::BracketOpen)
        } else if buffer == "]"@ {
            Some(Mark::BracketClose)
        } else if buffer == ":"@ {
            Some(Mark::Colon)
        } else if buffer == ","@ {
            Some(Mark::Comma)
        } else if buffer == "--"@ {
            Some(Mark::Decrease)
        } else if buffer == "/"@ {
            Some(Mark::Divide)
        } else if buffer == "/="@ {
            Some(Mark::DivideAssign)
        } else if buffer == "."@ {
            Some(Mark::Dot)
        } else if buffer == "=="@ {
            Some(Mark::Equal)
        } else if buffer == "**"@ {
            Some(Mark::Exponentiation)
        } else if buffer == ">"@ {
            Some(Mark::Greater)
        } else if buffer == ">="@ {
            Some(Mark::GreaterEqual)
        } else if buffer == "++"@ {
            Some(Mark::Increase)
        } else if buffer == "<"@ {
            Some(Mark::Less)
        } else if buffer == "<="@ {
            Some(Mark::LessEqual)
        } else if buffer == "%"@ {
            Some(Mark::Modulo)
        } else if buffer == "%="@ {
            Some(Mark::ModuloAssign)
        } else if buffer == "*"@ {
            Some(Mark::Multiply)
        } else if buffer == "*="@ {
            Some(Mark::MultiplyAssign)
        } else if buffer == "!="@ {
            Some(Mark::NotEqual)
        } else if buffer == "||"@ {
            Some(Mark::Or)
        } else if buffer == "("@ {
            Some(Mark::ParenthesisOpen)
        } else if buffer == ")"@ {
            Some(Mark::ParenthesisClose)
        } else if buffer == "?"@ {
            Some(Mark::QuestionMark)
        } else if buffer == ".."@ {
            Some(Mark::Range)
        } else if buffer == ";"@ {
            Some(Mark::Semicolon)
        } else if buffer == "<<"@ {
            Some(Mark::ShiftLeft)
        } else if buffer == "<<="@ {
            Some(Mark::ShiftLeftAssign)
        } else if buffer == ">>"@ {
            Some(Mark::ShiftRight)
        } else if buffer == ">>="@ {
            Some(Mark::ShiftRightAssign)
        } else if buffer == "-"@ {
            Some(Mark::Subtract)
        } else if buffer == "-="@ {
            Some(Mark::SubtractAssign)
        } else {
            None
        }
    }

    /// What the string literals of the table hold.
    pub proof fn lemma_reveal_spellings()
        ensures
            "+"@ == seq!['+'],
            "+="@ == seq!['+', '='],
            "&&"@ == seq!['&', '&'],
            "="@ == seq!['='],
            "@"@ == seq!['@'],
            "!"@ == seq!['!'],
            "&"@ == seq!['&'],
            "&="@ == seq!['&', '='],
            "~"@ == seq!['~'],
            "~="@ == seq!['~', '='],
            "|"@ == seq!['|'],
            "|="@ == seq!['|', '='],
            "^"@ == seq!['^'],
            "^="@ == seq!['^', '='],
            "{"@ == seq!['{'],
            "}"@ == seq!['}'],
            "["@ == seq!['['],
            "]"@ == seq![']'],
            ":"@ == seq![':'],
            ","@ == seq![','],
            "--"@ == seq!['-', '-'],
            "/"@ == seq!['/'],
            "/="@ == seq!['/', '='],
            "."@ == seq!['.'],
            "=="@ == seq!['=', '='],
            "**"@ == seq!['*', '*'],
            ">"@ == seq!['>'],
            ">="@ == seq!['>', '='],
            "++"@ == seq!['+', '+'],
            "<"@ == seq!['<'],
            "<="@ == seq!['<', '='],
            "%"@ == seq!['%'],
            "%="@ == seq!['%', '='],
            "*"@ == seq!['*'],
            "*="@ == seq!['*', '='],
            "!="@ == seq!['!', '='],
            "||"@ == seq!['|', '|'],
            "("@ == seq!['('],
            ")"@ == seq![')'],
            "?"@ == seq!['?'],
            ".."@ == seq!['.', '.'],
            ";"@ == seq![';'],
            "<<"@ == seq!['<', '<'],
            "<<="@ == seq!['<', '<', '='],
            ">>"@ == seq!['>', '>'],
            ">>="@ == seq!['>', '>', '='],
            "-"@ == seq!['-'],
            "-="@ == seq!['-', '='],
    {
        reveal_strlit("+");
        reveal_strlit("+=");
        reveal_strlit("&&");
        reveal_strlit("=");
        reveal_strlit("@");
        reveal_strlit("!");
        reveal_strlit("&");
        reveal_strlit("&=");
        reveal_strlit("~");
        reveal_strlit("~=");
        reveal_strlit("|");
        reveal_strlit("|=");
        reveal_strlit("^");
        reveal_strlit("^=");
        reveal_strlit("{");
        reveal_strlit("}");
        reveal_strlit("[");
        reveal_strlit("]");
        reveal_strlit(":");
        reveal_strlit(",");
        reveal_strlit("--");
        reveal_strlit("/");
        reveal_strlit("/=");
        reveal_strlit(".");
        reveal_strlit("==");
        reveal_strlit("**");
        reveal_strlit(">");
        reveal_strlit(">=");
        reveal_strlit("++");
        reveal_strlit("<");
        reveal_strlit("<=");
        reveal_strlit("%");
        reveal_strlit("%=");
        reveal_strlit("*");
        reveal_strlit("*=");
        reveal_strlit("!=");
        reveal_strlit("||");
        reveal_strlit("(");
        reveal_strlit(")");
        reveal_strlit("?");
        reveal_strlit("..");
        reveal_strlit(";");
        reveal_strlit("<<");
        reveal_strlit("<<=");
        reveal_strlit(">>");
        reveal_strlit(">>=");
        reveal_strlit("-");
        reveal_strlit("-=");
        assert("+"@ =~= seq!['+']);
        assert("+="@ =~= seq!['+', '=']);
        assert("&&"@ =~= seq!['&', '&']);
        assert("="@ =~= seq!['=']);
        assert("@"@ =~= seq!['@']);
        assert("!"@ =~= seq!['!']);
        assert("&"@ =~= seq!['&']);
        assert("&="@ =~= seq!['&', '=']);
        assert("~"@ =~= seq!['~']);
        assert("~="@ =~= seq!['~', '=']);
        assert("|"@ =~= seq!['|']);
        assert("|="@ =~= seq!['|', '=']);
        assert("^"@ =~= seq!['^']);
        assert("^="@ =~= seq!['^', '=']);
        assert("{"@ =~= seq!['{']);
        assert("}"@ =~= seq!['}']);
        assert("["@ =~= seq!['[']);
        assert("]"@ =~= seq![']']);
        assert(":"@ =~= seq![':']);
        assert(","@ =~= seq![',']);
        assert("--"@ =~= seq!['-', '-']);
        assert("/"@ =~= seq!['/']);
        assert("/="@ =~= seq!['/', '=']);
        assert("."@ =~= seq!['.']);
        assert("=="@ =~= seq!['=', '=']);
        assert("**"@ =~= seq!['*', '*']);
        assert(">"@ =~= seq!['>']);
        assert(">="@ =~= seq!['>', '=']);
        assert("++"@ =~= seq!['+', '+']);
        assert("<"@ =~= seq!['<']);
        assert("<="@ =~= seq!['<', '=']);
        assert("%"@ =~= seq!['%']);
        assert("%="@ =~= seq!['%', '=']);
        assert("*"@ =~= seq!['*']);
        assert("*="@ =~= seq!['*', '=']);
        assert("!="@ =~= seq!['!', '=']);
        assert("||"@ =~= seq!['|', '|']);
        assert("("@ =~= seq!['(']);
        assert(")"@ =~= seq![')']);
        assert("?"@ =~= seq!['?']);
        assert(".."@ =~= seq!['.', '.']);
        assert(";"@ =~= seq![';']);
        assert("<<"@ =~= seq!['<', '<']);
        assert("<<="@ =~= seq!['<', '<', '=']);
        assert(">>"@ =~= seq!['>', '>']);
        assert(">>="@ =~= seq!['>', '>', '=']);
        assert("-"@ =~= seq!['-']);
        assert("-="@ =~= seq!['-', '=']);
    }

    /// Every spelling names its own mark.
    pub proof fn lemma_spellings(self)
        ensures
            Mark::from_spelling(self.spelling()) == Some(self),
    {
        Mark::lemma_reveal_spellings();
        // Naming each character lets the solver tell the spellings apart.
        assert("+"@.len() == 1 && "+"@[0] == '+');
        assert("+="@.len() == 2 && "+="@[0] == '+' && "+="@[1] == '=');
        assert("&&"@.len() == 2 && "&&"@[0] == '&' && "&&"@[1] == '&');
        assert("="@.len() == 1 && "="@[0] == '=');
        assert("@"@.len() == 1 && "@"@[0] == '@');
        assert("!"@.len() == 1 && "!"@[0] == '!');
        assert("&"@.len() == 1 && "&"@[0] == '&');
        assert("&="@.len() == 2 && "&="@[0] == '&' && "&="@[1] == '=');
        assert("~"@.len() == 1 && "~"@[0] == '~');
        assert("~="@.len() == 2 && "~="@[0] == '~' && "~="@[1] == '=');
        assert("|"@.len() == 1 && "|"@[0] == '|');
        assert("|="@.len() == 2 && "|="@[0] == '|' && "|="@[1] == '=');
        assert("^"@.len() == 1 && "^"@[0] == '^');
        assert("^="@.len() == 2 && "^="@[0] == '^' && "^="@[1] == '=');
        assert("{"@.len() == 1 && "{"@[0] == '{');
        assert("}"@.len() == 1 && "}"@[0] == '}');
        assert("["@.len() == 1 && "["@[0] == '[');
        assert("]"@.len() == 1 && "]"@[0] == ']');
        assert(":"@.len() == 1 && ":"@[0] == ':');
        assert(","@.len() == 1 && ","@[0] == ',');
        assert("--"@.len() == 2 && "--"@[0] == '-' && "--"@[1] == '-');
        assert("/"@.len() == 1 && "/"@[0] == '/');
        assert("/="@.len() == 2 && "/="@[0] == '/' && "/="@[1] == '=');
        assert("."@.len() == 1 && "."@[0] == '.');
        assert("=="@.len() == 2 && "=="@[0] == '=' && "=="@[1] == '=');
        assert("**"@.len() == 2 && "**"@[0] == '*' && "**"@[1] == '*');
        assert(">"@.len() == 1 && ">"@[0] == '>');
        assert(">="@.len() == 2 && ">="@[0] == '>' && ">="@[1] == '=');
        assert("++"@.len() == 2 && "++"@[0] == '+' && "++"@[1] == '+');
        assert("<"@.len() == 1 && "<"@[0] == '<');
        assert("<="@.len() == 2 && "<="@[0] == '<' && "<="@[1] == '=');
        assert("%"@.len() == 1 && "%"@[0] == '%');
        assert("%="@.len() == 2 && "%="@[0] == '%' && "%="@[1] == '=');
        assert("*"@.len() == 1 && "*"@[0] == '*');
        assert("*="@.len() == 2 && "*="@[0] == '*' && "*="@[1] == '=');
        assert("!="@.len() == 2 && "!="@[0] == '!' && "!="@[1] == '=');
        assert("||"@.len() == 2 && "||"@[0] == '|' && "||"@[1] == '|');
        assert("("@.len() == 1 && "("@[0] == '(');
        assert(")"@.len() == 1 && ")"@[0] == ')');
        assert("?"@.len() == 1 && "?"@[0] == '?');
        assert(".."@.len() == 2 && ".."@[0] == '.' && ".."@[1] == '.');
        assert(";"@.len() == 1 && ";"@[0] == ';');
        assert("<<"@.len() == 2 && "<<"@[0] == '<' && "<<"@[1] == '<');
        assert("<<="@.len() == 3 && "<<="@[0] == '<' && "<<="@[1] == '<' && "<<="@[2] == '=');
        assert(">>"@.len() == 2 && ">>"@[0] == '>' && ">>"@[1] == '>');
        assert(">>="@.len() == 3 && ">>="@[0] == '>' && ">>="@[1] == '>' && ">>="@[2] == '=');
        assert("-"@.len() == 1 && "-"@[0] == '-');
        assert("-="@.len() == 2 && "-="@[0] == '-' && "-="@[1] == '=');
    }

    /// A buffer names a mark only by its spelling.
    pub proof fn lemma_from_spelling(buffer: Seq<char>)
        ensures
            match Mark::from_spelling(buffer) {
                Some(mark) => buffer == mark.spelling(),
                None => forall|mark: Mark| buffer != mark.spelling(),
            },
    {
        assert forall|mark: Mark| Mark::from_spelling(buffer) is None implies buffer
            != mark.spelling() by {
            mark.lemma_spellings();
        }
    }

    /// How the mark is written.
    pub fn as_str(&self) -> (text: &'static str)
        ensures
            text@ == self.spelling(),
    {
        match self {
            Mark::Add => "+",
            Mark::AddAssign => "+=",
            Mark::And => "&&",
            Mark::Assign => "=",
            Mark::At => "@",
            Mark::Bang => "!",
            Mark::BitAnd => "&",
            Mark::BitAndAssign => "&=",
            Mark::BitNot => "~",
            Mark::BitNotAssign => "~=",
            Mark::BitOr => "|",
            Mark::BitOrAssign => "|=",
            Mark::BitXor => "^",
            Mark::BitXorAssign => "^=",
            Mark::BraceOpen => "{",
            Mark::BraceClose => "}",
            Mark::BracketOpen => "[",
            Mark::BracketClose => "]",
            Mark::Colon => ":",
            Mark::Comma => ",",
            Mark::Decrease => "--",
            Mark::Divide => "/",
            Mark::DivideAssign => "/=",
            Mark::Dot => ".",
            Mark::Equal => "==",
            Mark::Exponentiation => "**",
            Mark::Greater => ">",
            Mark::GreaterEqual => ">=",
            Mark::Increase => "++",
            Mark::Less => "<",
            Mark::LessEqual => "<=",
            Mark::Modulo => "%",
            Mark::ModuloAssign => "%=",
            Mark::Multiply => "*",
            Mark::MultiplyAssign => "*=",
            Mark::NotEqual => "!=",
            Mark::Or => "||",
            Mark::ParenthesisOpen => "(",
            Mark::ParenthesisClose => ")",
            Mark::QuestionMark => "?",
            Mark::Range => "..",
            Mark::Semicolon => ";",
            Mark::ShiftLeft => "<<",
            Mark::ShiftLeftAssign => "<<=",
            Mark::ShiftRight => ">>",
            Mark::ShiftRightAssign => ">>=",
            Mark::Subtract => "-",
            Mark::SubtractAssign => "-=",
        }
    }

    /// How the mark is written.
    pub fn to_string(&self) -> (text: String)
        ensures
            text@ == self.spelling(),
    {
        self.as_str().to_owned()
    }

    /// Looks a buffer up in the table of marks.
    pub fn from_buffer(buffer: &Vec<char>) -> (mark: Option<Mark>)
        ensures
            mark == Mark::from_spelling(buffer@),
    {
        if matches_text(buffer, "+") {
            Some(Mark::Add)
        } else if matches_text(buffer, "+=") {
            Some(Mark::AddAssign)
        } else if matches_text(buffer, "&&") {
            Some(Mark::And)
        } else if matches_text(buffer, "=") {
            Some(Mark::Assign)
        } else if matches_text(buffer, "@") {
            Some(Mark::At)
        } else if matches_text(buffer, "!") {
            Some(Mark::Bang)
        } else if matches_text(buffer, "&") {
            Some(Mark::BitAnd)
        } else if matches_text(buffer, "&=") {
            Some(Mark::BitAndAssign)
        } else if matches_text(buffer, "~") {
            Some(Mark::BitNot)
        } else if matches_text(buffer, "~=") {
            Some(Mark::BitNotAssign)
        } else if matches_text(buffer, "|") {
            Some(Mark::BitOr)
        } else if matches_text(buffer, "|=") {
            Some(Mark::BitOrAssign)
        } else if matches_text(buffer, "^") {
            Some(Mark::BitXor)
        } else if matches_text(buffer, "^=") {
            Some(Mark::BitXorAssign)
        } else if matches_text(buffer, "{") {
            Some(Mark::BraceOpen)
        } else if matches_text(buffer, "}") {
            Some(Mark::BraceClose)
        } else if matches_text(buffer, "[") {
            Some(Mark::BracketOpen)
        } else if matches_text(buffer, "]") {
            Some(Mark::BracketClose)
        } else if matches_text(buffer, ":") {
            Some(Mark::Colon)
        } else if matches_text(buffer, ",") {
            Some(Mark::Comma)
        } else if matches_text(buffer, "--") {
            Some(Mark::Decrease)
        } else if matches_text(buffer, "/") {
            Some(Mark::Divide)
        } else if matches_text(buffer, "/=") {
            Some(Mark::DivideAssign)
        } else if matches_text(buffer, ".") {
            Some(Mark::Dot)
        } else if matches_text(buffer, "==") {
            Some(Mark::Equal)
        } else if matches_text(buffer, "**") {
            Some(Mark::Exponentiation)
        } else if matches_text(buffer, ">") {
            Some(Mark::Greater)
        } else if matches_text(buffer, ">=") {
            Some(Mark::GreaterEqual)
        } else if matches_text(buffer, "++") {
            Some(Mark::Increase)
        } else if matches_text(buffer, "<") {
            Some(Mark::Less)
        } else if matches_text(buffer, "<=") {
            Some(Mark::LessEqual)
        } else if matches_text(buffer, "%") {
            Some(Mark::Modulo)
        } else if matches_text(buffer, "%=") {
            Some(Mark::ModuloAssign)
        } else if matches_text(buffer, "*") {
            Some(Mark::Multiply)
        } else if matches_text(buffer, "*=") {
            Some(Mark::MultiplyAssign)
        } else if matches_text(buffer, "!=") {
            Some(Mark::NotEqual)
        } else if matches_text(buffer, "||") {
            Some(Mark::Or)
        } else if matches_text(buffer, "(") {
            Some(Mark::ParenthesisOpen)
        } else if matches_text(buffer, ")") {
            Some(Mark::ParenthesisClose)
        } else if matches_text(buffer, "?") {
            Some(Mark::QuestionMark)
        } else if matches_text(buffer, "..") {
            Some(Mark::Range)
        } else if matches_text(buffer, ";") {
            Some(Mark::Semicolon)
        } else if matches_text(buffer, "<<") {
            Some(Mark::ShiftLeft)
        } else if matches_text(buffer, "<<=") {
            Some(Mark::ShiftLeftAssign)
        } else if matches_text(buffer, ">>") {
            Some(Mark::ShiftRight)
        } else if matches_text(buffer, ">>=") {
            Some(Mark::ShiftRightAssign)
        } else if matches_text(buffer, "-") {
            Some(Mark::Subtract)
        } else if matches_text(buffer, "-=") {
            Some(Mark::SubtractAssign)
        } else {
            None
        }
    }
}

impl GetToken for Mark {
    open spec fn classify(buffer: Seq<char>) -> Option<(TokenType, Seq<char>)> {
        match Mark::from_spelling(buffer) {
            Some(mark) => Some((TokenType::Mark(mark), mark.spelling())),
            None => None,
        }
    }

    fn get_token(location: Location, buffer: &Vec<char>) -> (token: Option<Token>) {
        match Mark::from_buffer(buffer) {
            Some(mark) => Some(
                Token { location, content: mark.to_string(), token_type: TokenType::Mark(mark) },
            ),
            None => None,
        }
    }
}

} // verus!
