//! Conversions between strings and their characters.
use vstd::prelude::*;

verus! {

/// `String::push` appends the given character to the end of the string.
pub assume_specification[ String::push ](s: &mut String, ch: char)
    ensures
        final(s)@ == old(s)@.push(ch),
;

/// Splits a string slice into its characters, in order.
pub fn to_vec_char(s: &str) -> (chars: Vec<char>)
    ensures
        chars@ == s@,
{
    let mut chars: Vec<char> = Vec::new();
    for c in it: s.chars()
        invariant
            chars@ == it.seq().take(it.index()),
            it.seq() == s@,
    {
        chars.push(c);
    }
    chars
}

/// A value that can be read as a sequence of characters.
pub trait Chars {
    /// The characters that the value stands for.
    spec fn char_seq(&self) -> Seq<char>;

    /// Collects the characters of the value, in order.
    fn as_chars(&self) -> (chars: Vec<char>)
        ensures
            chars@ == self.char_seq(),
    ;
}

impl Chars for &str {
    open spec fn char_seq(&self) -> Seq<char> {
        self@
    }

    fn as_chars(&self) -> (chars: Vec<char>) {
        to_vec_char(self)
    }
}

} // verus!
