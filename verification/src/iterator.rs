//! A character cursor that knows its line and column, and conditional
//! lookahead over it.

use vstd::prelude::*;
use crate::characters::to_chars;

verus! {

/// The line of index `i` in `s`, counted from one: one more than the number
/// of line feeds before `i`.
pub open spec fn line_of(s: Seq<char>, i: int) -> int
    decreases i,
{
    if i <= 0 {
        1
    } else if s[i - 1] == '\n' {
        line_of(s, i - 1) + 1
    } else {
        line_of(s, i - 1)
    }
}

/// The index at which the line of index `i` starts: just behind the last line
/// feed before `i`, or zero.
pub open spec fn line_start(s: Seq<char>, i: int) -> int
    decreases i,
{
    if i <= 0 {
        0
    } else if s[i - 1] == '\n' {
        i
    } else {
        line_start(s, i - 1)
    }
}

/// The index at which the line of index `i` ends: the first line feed at or
/// behind `i`, or the end of `s`.
pub open spec fn line_end(s: Seq<char>, i: int) -> int
    decreases s.len() - i,
{
    if i < 0 || i >= s.len() {
        s.len() as int
    } else if s[i] == '\n' {
        i
    } else {
        line_end(s, i + 1)
    }
}

/// The column of index `i` in `s`, counted from one.
pub open spec fn column_of(s: Seq<char>, i: int) -> int {
    i - line_start(s, i) + 1
}

/// The text of the line of index `i`, without its line feed.
pub open spec fn line_text(s: Seq<char>, i: int) -> Seq<char> {
    s.subrange(line_start(s, i), line_end(s, i))
}

/// The first index at or behind `i` whose character fails `pred`, or the end
/// of `s`.
pub open spec fn run_end(s: Seq<char>, i: int, pred: spec_fn(char) -> bool) -> int
    decreases s.len() - i,
{
    if i < 0 || i >= s.len() {
        s.len() as int
    } else if pred(s[i]) {
        run_end(s, i + 1, pred)
    } else {
        i
    }
}

/// A line starts at or before each of its indices, just behind a line feed
/// or at the start of the text, and holds no line feed before the index.
pub proof fn lemma_line_start_bounds(s: Seq<char>, i: int)
    requires
        0 <= i <= s.len(),
    ensures
        0 <= line_start(s, i) <= i,
        1 <= line_of(s, i) <= i + 1,
        forall|j: int| line_start(s, i) <= j < i ==> s[j] != '\n',
        line_start(s, i) > 0 ==> s[line_start(s, i) - 1] == '\n',
    decreases i,
{
    if i > 0 {
        lemma_line_start_bounds(s, i - 1);
    }
}

/// A line ends at or behind each of its indices, at a line feed or at the
/// end of the text, and holds no line feed from the index on.
pub proof fn lemma_line_end_bounds(s: Seq<char>, i: int)
    requires
        0 <= i <= s.len(),
    ensures
        i <= line_end(s, i) <= s.len(),
        forall|j: int| i <= j < line_end(s, i) ==> s[j] != '\n',
        line_end(s, i) < s.len() ==> s[line_end(s, i)] == '\n',
    decreases s.len() - i,
{
    if i < s.len() && s[i] != '\n' {
        lemma_line_end_bounds(s, i + 1);
    }
}

/// Within one line, every index has the same line number, start and end.
pub proof fn lemma_same_line(s: Seq<char>, i: int, j: int)
    requires
        0 <= i <= j <= s.len(),
        forall|k: int| i <= k < j ==> s[k] != '\n',
    ensures
        line_of(s, j) == line_of(s, i),
        line_start(s, j) == line_start(s, i),
        line_end(s, i) == line_end(s, j),
    decreases j - i,
{
    if i < j {
        lemma_same_line(s, i, j - 1);
        lemma_line_end_step(s, i, j - 1);
    }
}

/// Indices without a line feed between them share the end of their line.
proof fn lemma_line_end_step(s: Seq<char>, i: int, j: int)
    requires
        0 <= i <= j < s.len(),
        forall|k: int| i <= k <= j ==> s[k] != '\n',
    ensures
        line_end(s, i) == line_end(s, j + 1),
    decreases j - i,
{
    if i < j {
        lemma_line_end_step(s, i + 1, j);
    }
}

/// What pins a run down: every character in it passes, and the one behind it
/// (if any) fails.
pub proof fn lemma_run_end_unique(s: Seq<char>, i: int, k: int, pred: spec_fn(char) -> bool)
    requires
        0 <= i <= k <= s.len(),
        forall|j: int| i <= j < k ==> pred(#[trigger] s[j]),
        k < s.len() ==> !pred(s[k]),
    ensures
        run_end(s, i, pred) == k,
    decreases k - i,
{
    if i < k {
        lemma_run_end_unique(s, i + 1, k, pred);
    }
}

/// A run ends at or behind its start: every character in it passes, and the
/// one behind it (if any) fails.
pub proof fn lemma_run_end_bounds(s: Seq<char>, i: int, pred: spec_fn(char) -> bool)
    requires
        0 <= i <= s.len(),
    ensures
        i <= run_end(s, i, pred) <= s.len(),
        forall|j: int| i <= j < run_end(s, i, pred) ==> pred(#[trigger] s[j]),
        run_end(s, i, pred) < s.len() ==> !pred(s[run_end(s, i, pred)]),
    decreases s.len() - i,
{
    if i < s.len() && pred(s[i]) {
        lemma_run_end_bounds(s, i + 1, pred);
    }
}

/// A line and a column, both counted from one.
#[derive(Clone, Copy, Debug, PartialEq, Eq, Structural)]
pub struct Position {
    pub line_number: usize,
    pub column_number: usize,
}

impl Position {
    /// The position at the given line and column.
    pub fn new(line_number: usize, column_number: usize) -> (position: Position)
        ensures
            position.line_number == line_number,
            position.column_number == column_number,
    {
        Position { line_number, column_number }
    }
}

/// A cursor over the characters of a text. It stands before the character at
/// `index()`, or at the end, and keeps the line number and the start of the
/// line it stands in.
pub struct Cursor {
    chars: Vec<char>,
    index: usize,
    line: usize,
    start: usize,
}

impl Cursor {
    /// The whole text, consumed characters included.
    pub closed spec fn text(&self) -> Seq<char> {
        self.chars@
    }

    /// How many characters have been consumed.
    pub closed spec fn index(&self) -> int {
        self.index as int
    }

    /// The bookkeeping agrees with the text, and line numbers cannot overflow.
    pub closed spec fn well_formed(&self) -> bool {
        &&& self.index <= self.chars.len()
        &&& self.chars.len() < usize::MAX
        &&& self.line == line_of(self.chars@, self.index as int)
        &&& self.start == line_start(self.chars@, self.index as int)
    }

    /// The line the cursor stands in.
    pub open spec fn line(&self) -> int {
        line_of(self.text(), self.index())
    }

    /// The column the cursor stands at.
    pub open spec fn column(&self) -> int {
        column_of(self.text(), self.index())
    }

    /// The cursor stands inside its text, and its line and its column are
    /// counted from one.
    pub proof fn lemma_bounds(&self)
        requires
            self.well_formed(),
        ensures
            0 <= self.index() <= self.text().len() < usize::MAX,
            1 <= self.line() <= self.index() + 1,
            1 <= self.column() <= self.index() + 1,
    {
        lemma_line_start_bounds(self.chars@, self.index as int);
    }

    /// A cursor at the start of the given characters.
    pub fn from_chars(chars: Vec<char>) -> (cursor: Cursor)
        requires
            chars.len() < usize::MAX,
        ensures
            cursor.well_formed(),
            cursor.text() == chars@,
            cursor.index() == 0,
    {
        Cursor { chars, index: 0, line: 1, start: 0 }
    }

    /// A cursor at the start of the given text.
    pub fn new(text: &str) -> (cursor: Cursor)
        requires
            text@.len() < usize::MAX,
        ensures
            cursor.well_formed(),
            cursor.text() == text@,
            cursor.index() == 0,
    {
        Cursor::from_chars(to_chars(text))
    }

    /// The next character, which stays unconsumed.
    pub fn peek(&self) -> (next: Option<char>)
        requires
            self.well_formed(),
        ensures
            next == if self.index() < self.text().len() {
                Some(self.text()[self.index()])
            } else {
                None
            },
    {
        if self.index < self.chars.len() {
            Some(self.chars[self.index])
        } else {
            None
        }
    }

    /// Consumes and returns the next character.
    pub fn next(&mut self) -> (next: Option<char>)
        requires
            old(self).well_formed(),
        ensures
            final(self).well_formed(),
            final(self).text() == old(self).text(),
            next == if old(self).index() < old(self).text().len() {
                Some(old(self).text()[old(self).index()])
            } else {
                None
            },
            final(self).index() == if next is Some {
                old(self).index() + 1
            } else {
                old(self).index()
            },
    {
        if self.index < self.chars.len() {
            let c = self.chars[self.index];
            proof {
                lemma_line_start_bounds(self.chars@, self.index as int);
            }
            self.index = self.index + 1;
            if c == '\n' {
                self.line = self.line + 1;
                self.start = self.index;
            }
            Some(c)
        } else {
            None
        }
    }

    /// Whether every character has been consumed.
    pub fn at_end(&self) -> (done: bool)
        requires
            self.well_formed(),
        ensures
            done == (self.index() == self.text().len()),
    {
        self.index >= self.chars.len()
    }

    /// How many characters have been consumed.
    pub fn offset(&self) -> (offset: usize)
        requires
            self.well_formed(),
        ensures
            offset == self.index(),
    {
        self.index
    }

    /// Where the cursor stands.
    pub fn position(&self) -> (position: Position)
        requires
            self.well_formed(),
        ensures
            position.line_number == self.line(),
            position.column_number == self.column(),
    {
        proof {
            lemma_line_start_bounds(self.chars@, self.index as int);
        }
        Position::new(self.line, self.index - self.start + 1)
    }

    /// The text of the line the cursor stands in.
    pub fn current_line(&self) -> (line: Vec<char>)
        requires
            self.well_formed(),
        ensures
            line@ == line_text(self.text(), self.index()),
    {
        proof {
            lemma_line_start_bounds(self.chars@, self.index as int);
            lemma_line_end_bounds(self.chars@, self.index as int);
        }
        let mut line: Vec<char> = Vec::new();
        let mut i: usize = self.start;
        while i < self.index
            invariant
                self.start <= i <= self.index <= self.chars.len(),
                line@ == self.chars@.subrange(self.start as int, i as int),
            decreases self.index - i,
        {
            line.push(self.chars[i]);
            i += 1;
        }
        while i < self.chars.len() && self.chars[i] != '\n'
            invariant
                self.start <= self.index <= i <= self.chars.len(),
                line@ == self.chars@.subrange(self.start as int, i as int),
                line_end(self.chars@, i as int) == line_end(self.chars@, self.index as int),
            decreases self.chars.len() - i,
        {
            line.push(self.chars[i]);
            i += 1;
        }
        line
    }
}

/// Lookahead that consumes while a condition holds, or until one does, and
/// leaves the first character that ends the run unconsumed.
pub trait ConditionalPeeking {
    /// The text walked over.
    spec fn peek_text(&self) -> Seq<char>;

    /// How far into the text the walk has come.
    spec fn peek_index(&self) -> int;

    /// Whether lookahead may be used.
    spec fn peek_ready(&self) -> bool;

    /// Consumes the characters for which `closure` returns `true`, up to the
    /// first one for which it returns `false`, and returns them.
    fn peek_while<F: Fn(char) -> bool>(&mut self, closure: F) -> (run: Vec<char>)
        requires
            old(self).peek_ready(),
            forall|c: char| closure.requires((c,)),
        ensures
            final(self).peek_ready(),
            final(self).peek_text() == old(self).peek_text(),
            old(self).peek_index() <= final(self).peek_index() <= old(self).peek_text().len(),
            run@ == old(self).peek_text().subrange(old(self).peek_index(), final(self).peek_index()),
            forall|j: int|
                old(self).peek_index() <= j < final(self).peek_index() ==> closure.ensures(
                    (#[trigger] old(self).peek_text()[j],),
                    true,
                ),
            final(self).peek_index() < old(self).peek_text().len() ==> closure.ensures(
                (old(self).peek_text()[final(self).peek_index()],),
                false,
            ),
    ;

    /// Consumes the characters for which `closure` returns `false`, up to the
    /// first one for which it returns `true`, and returns them.
    fn peek_until<F: Fn(char) -> bool>(&mut self, closure: F) -> (run: Vec<char>)
        requires
            old(self).peek_ready(),
            forall|c: char| closure.requires((c,)),
        ensures
            final(self).peek_ready(),
            final(self).peek_text() == old(self).peek_text(),
            old(self).peek_index() <= final(self).peek_index() <= old(self).peek_text().len(),
            run@ == old(self).peek_text().subrange(old(self).peek_index(), final(self).peek_index()),
            forall|j: int|
                old(self).peek_index() <= j < final(self).peek_index() ==> closure.ensures(
                    (#[trigger] old(self).peek_text()[j],),
                    false,
                ),
            final(self).peek_index() < old(self).peek_text().len() ==> closure.ensures(
                (old(self).peek_text()[final(self).peek_index()],),
                true,
            ),
    ;
}

impl ConditionalPeeking for Cursor {
    open spec fn peek_text(&self) -> Seq<char> {
        self.text()
    }

    open spec fn peek_index(&self) -> int {
        self.index()
    }

    open spec fn peek_ready(&self) -> bool {
        self.well_formed()
    }

    fn peek_while<F: Fn(char) -> bool>(&mut self, closure: F) -> (run: Vec<char>) {
        self.peek_run(closure, true)
    }

    fn peek_until<F: Fn(char) -> bool>(&mut self, closure: F) -> (run: Vec<char>) {
        self.peek_run(closure, false)
    }
}

impl Cursor {
    /// Consumes the characters for which `closure` returns `wanted`.
    fn peek_run<F: Fn(char) -> bool>(&mut self, closure: F, wanted: bool) -> (run: Vec<char>)
        requires
            old(self).well_formed(),
            forall|c: char| closure.requires((c,)),
        ensures
            final(self).well_formed(),
            final(self).text() == old(self).text(),
            old(self).index() <= final(self).index() <= old(self).text().len(),
            run@ == old(self).text().subrange(old(self).index(), final(self).index()),
            forall|j: int|
                old(self).index() <= j < final(self).index() ==> closure.ensures(
                    (#[trigger] old(self).text()[j],),
                    wanted,
                ),
            final(self).index() < old(self).text().len() ==> closure.ensures(
                (old(self).text()[final(self).index()],),
                !wanted,
            ),
    {
        let mut run: Vec<char> = Vec::new();
        let ghost start = self.index();
        loop
            invariant
                self.well_formed(),
                self.text() == old(self).text(),
                start == old(self).index(),
                start <= self.index() <= self.text().len(),
                run@ == self.text().subrange(start, self.index()),
                forall|c: char| closure.requires((c,)),
                forall|j: int|
                    start <= j < self.index() ==> closure.ensures(
                        (#[trigger] self.text()[j],),
                        wanted,
                    ),
            ensures
                self.index() < self.text().len() ==> closure.ensures(
                    (self.text()[self.index()],),
                    !wanted,
                ),
            decreases self.text().len() - self.index(),
        {
            match self.peek() {
                Some(c) => {
                    if closure(c) == wanted {
                        run.push(c);
                        self.next();
                    } else {
                        break;
                    }
                },
                None => {
                    break;
                },
            }
        }
        run
    }
}

} // verus!
