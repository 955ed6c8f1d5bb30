//! Text: building it and measuring it.

use vstd::prelude::*;
use vstd::string::*;
use vstd::utf8::{char_is_scalar, encode_utf8};

verus! {

/// `String::push` puts one character at the end of the text.
pub assume_specification[ String::push ](text: &mut String, ch: char)
    ensures
        final(text)@ == old(text)@.push(ch),
;

/// `String::pop` takes the last character off the text and returns it. From an empty text it takes
/// nothing and returns `None`.
pub assume_specification[ String::pop ](text: &mut String) -> (last: Option<char>)
    ensures
        old(text)@.len() == 0 ==> last is None && final(text)@ == old(text)@,
        old(text)@.len() > 0 ==> last == Some(old(text)@.last()) && final(text)@ == old(
            text,
        )@.drop_last(),
;

/// The number of bytes that the text takes up in UTF-8.
pub open spec fn byte_len(text: Seq<char>) -> nat {
    encode_utf8(text).len()
}

/// The text that repeats `ch` `times` times.
pub open spec fn repeated(ch: char, times: nat) -> Seq<char> {
    Seq::new(times, |i: int| ch)
}

/// The number of bytes that the text takes up in UTF-8.
pub fn measure(text: &str) -> (len: usize)
    ensures
        len == byte_len(text@),
{
    text.as_bytes().len()
}

/// The text that repeats `ch` `times` times.
pub fn repeat(ch: char, times: usize) -> (text: String)
    ensures
        text@ == repeated(ch, times as nat),
{
    let mut text = String::new();
    let mut done: usize = 0;
    while done < times
        invariant
            done <= times,
            text@ == repeated(ch, done as nat),
        decreases times - done,
    {
        text.push(ch);
        done = done + 1;
        assert(text@ =~= repeated(ch, done as nat));
    }
    text
}

/// Joined texts take up as many bytes as the texts do on their own.
pub proof fn law_bytes_of_joined_texts(first: Seq<char>, second: Seq<char>)
    ensures
        byte_len(first + second) == byte_len(first) + byte_len(second),
    decreases first.len(),
{
    if first.len() == 0 {
        assert(first + second =~= second);
    } else {
        assert((first + second).drop_first() =~= first.drop_first() + second);
        law_bytes_of_joined_texts(first.drop_first(), second);
    }
}

/// A character takes up one byte in ASCII, and two to four beyond it.
pub proof fn law_bytes_of_a_character(c: char)
    ensures
        byte_len(Seq::empty()) == 0,
        byte_len(seq![c]) == (if c as u32 <= 0x7f {
            1
        } else if c as u32 <= 0x7ff {
            2
        } else if c as u32 <= 0xffff {
            3
        } else {
            4int
        }),
{
    char_is_scalar(c);
    assert(seq![c].drop_first() =~= Seq::<char>::empty());
    assert(encode_utf8(seq![c].drop_first()).len() == 0);
}

/// A repeated character is there as often as it was asked for, and nothing else is.
pub proof fn law_repeated_character(ch: char, times: nat, i: int)
    requires
        0 <= i < times,
    ensures
        repeated(ch, times).len() == times,
        repeated(ch, times)[i] == ch,
{
}

} // verus!
