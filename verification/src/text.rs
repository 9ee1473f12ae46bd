//! Conversions between strings and sequences of characters.

use vstd::prelude::*;

verus! {

/// The character sequences of a sequence of strings.
pub open spec fn texts(strings: Seq<String>) -> Seq<Seq<char>> {
    strings.map_values(|s: String| s@)
}

/// `String::push` of the standard library: appends the character `c` to the
/// end of `s` and leaves the characters before it as they were.
#[verifier::external_body]
pub(crate) fn push_char(s: &mut String, c: char)
    ensures
        final(s)@ == old(s)@.push(c),
{
    s.push(c)
}

/// The characters of a string, in order.
pub fn chars_of(s: &str) -> (chars: Vec<char>)
    ensures
        chars@ == s@,
{
    broadcast use vstd::string::group_string_axioms;

    let mut chars: Vec<char> = Vec::new();
    for c in it: s.chars()
        invariant
            it.seq() == s@,
            chars@ == s@.take(it.index()),
    {
        assert(s@.take(it.index() + 1) == s@.take(it.index()).push(c));
        chars.push(c);
    }
    chars
}

/// The character at position `i`. Read through this function, the character
/// is known to the verifier as a valid `char`, which it has to be where it
/// goes into a value of another type.
pub fn char_at(chars: &Vec<char>, i: usize) -> (c: char)
    requires
        i < chars@.len(),
    ensures
        c == chars@[i as int],
{
    chars[i]
}

/// The string made of the given characters, in order.
pub fn string_of(chars: &Vec<char>) -> (s: String)
    ensures
        s@ == chars@,
{
    let mut s = String::new();
    let mut i: usize = 0;
    while i < chars.len()
        invariant
            i <= chars.len(),
            s@ == chars@.take(i as int),
        decreases chars.len() - i,
    {
        assert(chars@.take(i + 1) == chars@.take(i as int).push(chars@[i as int]));
        push_char(&mut s, chars[i]);
        i = i + 1;
    }
    s
}

} // verus!
