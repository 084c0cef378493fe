//! Character classes and conversions between text and character buffers.

use vstd::prelude::*;

verus! {

/// Whether a character has the Unicode `White_Space` property, as
/// `char::is_whitespace` tells it.
pub uninterp spec fn unicode_whitespace(c: char) -> bool;

/// Whether a character has the Unicode `Alphabetic` property, as
/// `char::is_alphabetic` tells it.
pub uninterp spec fn unicode_alphabetic(c: char) -> bool;

/// The ASCII characters that count as whitespace: space, and tab to carriage return.
pub open spec fn ascii_whitespace(c: char) -> bool {
    c == ' ' || ('\t' <= c && c <= '\r')
}

/// The ASCII letters.
pub open spec fn ascii_letter(c: char) -> bool {
    ('a' <= c && c <= 'z') || ('A' <= c && c <= 'Z')
}

/// Whitespace: among the ASCII characters the space and the range from tab
/// to carriage return, beyond them what Unicode counts as whitespace.
pub open spec fn whitespace(c: char) -> bool {
    if c <= '\x7f' {
        ascii_whitespace(c)
    } else {
        unicode_whitespace(c)
    }
}

/// Letters: among the ASCII characters `a` to `z` and `A` to `Z`, beyond
/// them what Unicode counts as alphabetic.
pub open spec fn alphabetic(c: char) -> bool {
    if c <= '\x7f' {
        ascii_letter(c)
    } else {
        unicode_alphabetic(c)
    }
}

/// `char::is_whitespace` tells whether the character has the `White_Space`
/// property. The contract gives that answer its name and says no more of it.
pub assume_specification[ char::is_whitespace ](c: char) -> (b: bool)
    ensures
        b == unicode_whitespace(c),
;

/// `char::is_alphabetic` tells whether the character has the `Alphabetic`
/// property. The contract gives that answer its name and says no more of it.
pub assume_specification[ char::is_alphabetic ](c: char) -> (b: bool)
    ensures
        b == unicode_alphabetic(c),
;

/// Whether a character is whitespace.
pub fn is_whitespace_char(c: char) -> (b: bool)
    ensures
        b == whitespace(c),
{
    if c <= '\x7f' {
        c == ' ' || ('\t' <= c && c <= '\r')
    } else {
        c.is_whitespace()
    }
}

/// Whether a character is a letter.
pub fn is_alphabetic_char(c: char) -> (b: bool)
    ensures
        b == alphabetic(c),
{
    if c <= '\x7f' {
        ('a' <= c && c <= 'z') || ('A' <= c && c <= 'Z')
    } else {
        c.is_alphabetic()
    }
}

/// `String::push` appends the character to the end of the string.
pub assume_specification[ std::string::String::push ](s: &mut std::string::String, c: char)
    ensures
        final(s)@ == old(s)@.push(c),
;

/// The decimal digits `0` to `9`.
pub open spec fn is_digit(c: char) -> bool {
    '0' <= c && c <= '9'
}

/// Whether a character is one of the decimal digits `0` to `9`.
pub fn is_ascii_digit(c: char) -> (b: bool)
    ensures
        b == is_digit(c),
{
    '0' <= c && c <= '9'
}

/// The characters of a text, in order.
pub fn to_chars(text: &str) -> (chars: Vec<char>)
    ensures
        chars@ == text@,
{
    let mut chars: Vec<char> = Vec::new();
    for c in it: text.chars()
        invariant
            chars@ == it.seq().take(it.index() as int),
    {
        chars.push(c);
    }
    chars
}

/// The text made of the given characters.
pub fn to_text(chars: &Vec<char>) -> (text: String)
    ensures
        text@ == chars@,
{
    let mut text = String::new();
    let mut i: usize = 0;
    while i < chars.len()
        invariant
            i <= chars.len(),
            text@ == chars@.take(i as int),
        decreases chars.len() - i,
    {
        text.push(chars[i]);
        i += 1;
    }
    text
}

/// Whether a buffer holds exactly the characters of a text.
pub fn matches_text(buffer: &Vec<char>, text: &str) -> (same: bool)
    ensures
        same == (buffer@ == text@),
{
    let mut i: usize = 0;
    for c in it: text.chars()
        invariant
            i == it.index(),
            i <= buffer.len(),
            it.seq() == text@,
            buffer@.take(i as int) == text@.take(i as int),
    {
        if i >= buffer.len() || buffer[i] != c {
            assert(buffer@ != text@) by {
                if buffer@ == text@ {
                    assert(buffer@[i as int] == text@[i as int]);
                }
            }
            return false;
        }
        assert(buffer@.take(i + 1) == buffer@.take(i as int).push(buffer@[i as int]));
        assert(text@.take(i + 1) == text@.take(i as int).push(text@[i as int]));
        i += 1;
    }
    assert(text@.take(i as int) == text@);
    assert(i == buffer.len() ==> buffer@.take(i as int) == buffer@);
    i == buffer.len()
}

} // verus!
