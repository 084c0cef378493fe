//! Scanning comments.

use vstd::prelude::*;
use crate::iterator::{line_end, ConditionalPeeking, Cursor};

verus! {

/// The index of the `*` of the first `*/` at or behind `i`, or the length of
/// `s` where there is none.
pub open spec fn comment_close(s: Seq<char>, i: int) -> int
    decreases s.len() - i,
{
    if i < 0 || i + 1 >= s.len() {
        s.len() as int
    } else if s[i] == '*' && s[i + 1] == '/' {
        i
    } else {
        comment_close(s, i + 1)
    }
}

/// The close of a comment lies at or behind where the search started, at the
/// first `*/` from there on, or at the end of the text where there is none.
pub proof fn lemma_comment_close_bounds(s: Seq<char>, i: int)
    requires
        0 <= i <= s.len(),
    ensures
        i <= comment_close(s, i) <= s.len(),
        comment_close(s, i) < s.len() ==> comment_close(s, i) + 1 < s.len() && s[comment_close(
            s,
            i,
        )] == '*' && s[comment_close(s, i) + 1] == '/',
        forall|j: int|
            i <= j < comment_close(s, i) && j + 1 < s.len() ==> !(#[trigger] s[j] == '*' && s[j + 1]
                == '/'),
    decreases s.len() - i,
{
    if i + 1 < s.len() && !(s[i] == '*' && s[i + 1] == '/') {
        lemma_comment_close_bounds(s, i + 1);
    }
}

/// What pins the end of a line down.
pub proof fn lemma_line_end_unique(s: Seq<char>, i: int, k: int)
    requires
        0 <= i <= k <= s.len(),
        forall|j: int| i <= j < k ==> s[j] != '\n',
        k < s.len() ==> s[k] == '\n',
    ensures
        line_end(s, i) == k,
    decreases k - i,
{
    if i < k {
        lemma_line_end_unique(s, i + 1, k);
    }
}

/// The index at which the line behind that of index `i` starts: just behind
/// the line feed that ends the line of `i`, or the length of `s` where no line
/// feed ends it.
pub open spec fn next_line(s: Seq<char>, i: int) -> int {
    if line_end(s, i) < s.len() {
        line_end(s, i) + 1
    } else {
        s.len() as int
    }
}

/// Consumes the rest of the line and the line feed that ends it, and returns
/// the rest of the line without the line feed: the text of a comment that
/// started with `//`. The cursor then stands at the start of the next line,
/// or at the end of the text.
pub fn remove_single_line_comment(cursor: &mut Cursor) -> (body: Vec<char>)
    requires
        old(cursor).well_formed(),
    ensures
        final(cursor).well_formed(),
        final(cursor).text() == old(cursor).text(),
        final(cursor).index() == next_line(old(cursor).text(), old(cursor).index()),
        body@ == old(cursor).text().subrange(
            old(cursor).index(),
            line_end(old(cursor).text(), old(cursor).index()),
        ),
{
    let ends_line = |c: char| -> (b: bool)
        ensures
            b == (c == '\n'),
        { c == '\n' };
    let body = cursor.peek_until(ends_line);
    proof {
        old(cursor).lemma_bounds();
        lemma_line_end_unique(cursor.text(), old(cursor).index(), cursor.index());
    }
    cursor.next();
    body
}

/// Consumes a block comment whose `/*` has been consumed: everything up to
/// and including the first `*/`. Returns what stood before the `*/`, or `None`
/// where the text ends without one; the cursor then stands at the end.
pub fn remove_multi_line_comment(cursor: &mut Cursor) -> (body: Option<Vec<char>>)
    requires
        old(cursor).well_formed(),
    ensures
        final(cursor).well_formed(),
        final(cursor).text() == old(cursor).text(),
        match body {
            Some(found) => {
                let close = comment_close(old(cursor).text(), old(cursor).index());
                &&& close < old(cursor).text().len()
                &&& found@ == old(cursor).text().subrange(old(cursor).index(), close)
                &&& final(cursor).index() == close + 2
            },
            None => {
                &&& comment_close(old(cursor).text(), old(cursor).index()) == old(
                    cursor,
                ).text().len()
                &&& final(cursor).index() == old(cursor).text().len()
            },
        },
{
    let mut body: Vec<char> = Vec::new();
    let ghost start = cursor.index();
    proof {
        cursor.lemma_bounds();
    }
    loop
        invariant
            cursor.well_formed(),
            cursor.text() == old(cursor).text(),
            start == old(cursor).index(),
            0 <= start <= cursor.index() <= cursor.text().len(),
            body@ == cursor.text().subrange(start, cursor.index()),
            comment_close(cursor.text(), start) == comment_close(cursor.text(), cursor.index()),
        decreases cursor.text().len() - cursor.index(),
    {
        match cursor.next() {
            None => {
                return None;
            },
            Some(c) => {
                if c == '*' {
                    match cursor.peek() {
                        Some('/') => {
                            cursor.next();
                            return Some(body);
                        },
                        _ => {},
                    }
                }
                body.push(c);
                assert(body@ == cursor.text().subrange(start, cursor.index()));
            },
        }
    }
}

} // verus!
