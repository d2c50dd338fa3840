//! Building strings out of characters.

use vstd::prelude::*;

verus! {

/// `String::push` appends one character: the string afterwards is the string
/// before with `ch` at its end. Verus takes this on trust from the standard
/// library's documentation.
pub assume_specification[ String::push ](s: &mut String, ch: char)
    ensures
        final(s)@ == old(s)@.push(ch),
;

/// Appends the characters of `chars` to `s`, in order.
pub fn push_chars(s: &mut String, chars: &Vec<char>)
    ensures
        final(s)@ == old(s)@ + chars@,
{
    let mut i: usize = 0;
    while i < chars.len()
        invariant
            i <= chars@.len(),
            s@ == old(s)@ + chars@.subrange(0, i as int),
        decreases chars@.len() - i,
    {
        s.push(chars[i]);
        i = i + 1;
    }
    assert(chars@.subrange(0, i as int) == chars@);
}

/// A fresh string holding the text of `literal`.
pub fn owned(literal: &str) -> (s: String)
    ensures
        s@ == literal@,
{
    literal.to_owned()
}

/// The text of `head` followed by the text of `tail`.
pub fn joined(head: &str, tail: &str) -> (s: String)
    ensures
        s@ == head@ + tail@,
{
    let mut s = head.to_owned();
    s.append(tail);
    s
}

} // verus!
