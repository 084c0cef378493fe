//! Small operations on character buffers: trimming, joining, and numbers in
//! decimal.

use vstd::prelude::*;
use crate::characters::{is_whitespace_char, whitespace};

verus! {

/// The index of the first character of `s` that is no whitespace, or the
/// length of `s`.
pub open spec fn trim_start(s: Seq<char>) -> int
    decreases s.len(),
{
    if s.len() == 0 {
        0
    } else if whitespace(s[0]) {
        1 + trim_start(s.drop_first())
    } else {
        0
    }
}

/// The index behind the last character of `s` that is no whitespace, or zero.
pub open spec fn trim_end(s: Seq<char>) -> int
    decreases s.len(),
{
    if s.len() == 0 {
        0
    } else if whitespace(s.last()) {
        trim_end(s.drop_last())
    } else {
        s.len() as int
    }
}

/// `s` without the whitespace at its start and at its end.
pub open spec fn trimmed(s: Seq<char>) -> Seq<char> {
    if trim_start(s) < trim_end(s) {
        s.subrange(trim_start(s), trim_end(s))
    } else {
        Seq::empty()
    }
}

/// Only whitespace stands behind the end of the trimmed part.
pub proof fn lemma_trim_end(s: Seq<char>)
    ensures
        0 <= trim_end(s) <= s.len(),
        forall|j: int| trim_end(s) <= j < s.len() ==> whitespace(#[trigger] s[j]),
        trim_end(s) > 0 ==> !whitespace(s[trim_end(s) - 1]),
    decreases s.len(),
{
    if s.len() > 0 && whitespace(s.last()) {
        let rest = s.drop_last();
        lemma_trim_end(rest);
        assert forall|j: int| trim_end(s) <= j < s.len() implies whitespace(#[trigger] s[j]) by {
            if j < s.len() - 1 {
                assert(s[j] == rest[j]);
            }
        }
        if trim_end(s) > 0 {
            assert(s[trim_end(s) - 1] == rest[trim_end(rest) - 1]);
        }
    }
}

/// What pins the start of the trimmed part down.
pub proof fn lemma_trim_start_unique(s: Seq<char>, k: int)
    requires
        0 <= k <= s.len(),
        forall|j: int| 0 <= j < k ==> whitespace(#[trigger] s[j]),
        k < s.len() ==> !whitespace(s[k]),
    ensures
        trim_start(s) == k,
    decreases s.len(),
{
    if s.len() > 0 && k > 0 {
        let rest = s.drop_first();
        assert(whitespace(s[0]));
        assert forall|j: int| 0 <= j < k - 1 implies whitespace(#[trigger] rest[j]) by {
            assert(rest[j] == s[j + 1]);
        }
        if k - 1 < rest.len() {
            assert(rest[k - 1] == s[k]);
        }
        lemma_trim_start_unique(rest, k - 1);
    }
}

/// What pins the end of the trimmed part down.
pub proof fn lemma_trim_end_unique(s: Seq<char>, k: int)
    requires
        0 <= k <= s.len(),
        forall|j: int| k <= j < s.len() ==> whitespace(#[trigger] s[j]),
        k > 0 ==> !whitespace(s[k - 1]),
    ensures
        trim_end(s) == k,
    decreases s.len(),
{
    if s.len() > 0 && k < s.len() {
        let rest = s.drop_last();
        assert(whitespace(s[s.len() - 1]));
        assert forall|j: int| k <= j < rest.len() implies whitespace(#[trigger] rest[j]) by {
            assert(rest[j] == s[j]);
        }
        if k > 0 {
            assert(rest[k - 1] == s[k - 1]);
        }
        lemma_trim_end_unique(rest, k);
    }
}

/// The characters from `from` up to `to`.
pub fn slice(chars: &Vec<char>, from: usize, to: usize) -> (part: Vec<char>)
    requires
        from <= to <= chars.len(),
    ensures
        part@ == chars@.subrange(from as int, to as int),
{
    let mut part: Vec<char> = Vec::new();
    let mut i: usize = from;
    while i < to
        invariant
            from <= i <= to <= chars.len(),
            part@ == chars@.subrange(from as int, i as int),
        decreases to - i,
    {
        part.push(chars[i]);
        i += 1;
    }
    part
}

/// The characters without the whitespace at their start and at their end.
pub fn trim(chars: &Vec<char>) -> (part: Vec<char>)
    ensures
        part@ == trimmed(chars@),
{
    let mut from: usize = 0;
    while from < chars.len() && is_whitespace_char(chars[from])
        invariant
            from <= chars.len(),
            forall|j: int| 0 <= j < from ==> whitespace(#[trigger] chars@[j]),
        decreases chars.len() - from,
    {
        from += 1;
    }
    let mut to: usize = chars.len();
    while to > from && is_whitespace_char(chars[to - 1])
        invariant
            from <= to <= chars.len(),
            forall|j: int| to <= j < chars.len() ==> whitespace(#[trigger] chars@[j]),
        decreases to,
    {
        to -= 1;
    }
    proof {
        lemma_trim_start_unique(chars@, from as int);
        if to > from {
            lemma_trim_end_unique(chars@, to as int);
        } else {
            lemma_trim_end(chars@);
            if trim_end(chars@) > from {
                assert(whitespace(chars@[trim_end(chars@) - 1]));
            }
        }
    }
    if from < to {
        slice(chars, from, to)
    } else {
        Vec::new()
    }
}

/// The character of a decimal digit.
pub open spec fn digit(d: int) -> char {
    ('0' as int + d) as char
}

/// A number written in decimal, without leading zeros.
pub open spec fn decimal(n: int) -> Seq<char>
    decreases n,
{
    if n < 10 {
        seq![digit(n)]
    } else {
        decimal(n / 10).push(digit(n % 10))
    }
}

/// Writes a number in decimal.
pub fn to_decimal(n: usize) -> (digits: Vec<char>)
    ensures
        digits@ == decimal(n as int),
{
    let mut reversed: Vec<char> = Vec::new();
    let mut rest: usize = n;
    let ghost mut tail: Seq<char> = Seq::empty();
    while rest >= 10
        invariant
            tail.len() == reversed.len(),
            forall|j: int| 0 <= j < tail.len() ==> tail[j] == reversed@[tail.len() - 1 - j],
            decimal(n as int) == decimal(rest as int) + tail,
        decreases rest,
    {
        let d = digit_of(rest % 10);
        proof {
            let next = seq![d] + tail;
            assert(decimal(rest as int) == decimal(rest as int / 10).push(d));
            assert(decimal(rest as int / 10).push(d) + tail =~= decimal(rest as int / 10) + next);
            tail = next;
        }
        reversed.push(d);
        rest = rest / 10;
    }
    let mut digits: Vec<char> = Vec::new();
    digits.push(digit_of(rest));
    let mut i: usize = reversed.len();
    while i > 0
        invariant
            i <= reversed.len(),
            tail.len() == reversed.len(),
            forall|j: int| 0 <= j < tail.len() ==> tail[j] == reversed@[tail.len() - 1 - j],
            digits@ == decimal(rest as int) + tail.subrange(0, reversed.len() - i),
            rest < 10,
        decreases i,
    {
        i -= 1;
        digits.push(reversed[i]);
        assert(digits@ =~= decimal(rest as int) + tail.subrange(0, reversed.len() - i));
    }
    assert(tail.subrange(0, reversed.len() as int) == tail);
    digits
}

/// The character of one decimal digit.
fn digit_of(d: usize) -> (c: char)
    requires
        d < 10,
    ensures
        c == digit(d as int),
{
    if d == 0 {
        '0'
    } else if d == 1 {
        '1'
    } else if d == 2 {
        '2'
    } else if d == 3 {
        '3'
    } else if d == 4 {
        '4'
    } else if d == 5 {
        '5'
    } else if d == 6 {
        '6'
    } else if d == 7 {
        '7'
    } else if d == 8 {
        '8'
    } else {
        '9'
    }
}

/// Appends the characters of `more` to `buffer`.
pub fn extend(buffer: &mut Vec<char>, more: &Vec<char>)
    ensures
        final(buffer)@ == old(buffer)@ + more@,
{
    let mut i: usize = 0;
    while i < more.len()
        invariant
            i <= more.len(),
            buffer@ == old(buffer)@ + more@.subrange(0, i as int),
        decreases more.len() - i,
    {
        buffer.push(more[i]);
        i += 1;
        assert(buffer@ =~= old(buffer)@ + more@.subrange(0, i as int));
    }
    assert(more@.subrange(0, more.len() as int) == more@);
}

} // verus!
