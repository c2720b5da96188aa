//! Conversions between strings and sequences of characters, and the
//! character-level helpers that the parsing of names builds on.

use vstd::prelude::*;

verus! {

/// `String::push` appends one character at the end of the string and leaves
/// the characters before it as they were.
pub assume_specification[ String::push ](s: &mut String, c: char)
    ensures
        final(s)@ == old(s)@.push(c),
;

/// The mathematical content of an outcome that is a value or a message.
pub open spec fn outcome_view<T>(r: Result<T, String>) -> Result<T, Seq<char>> {
    match r {
        Ok(v) => Ok(v),
        Err(message) => Err(message@),
    }
}

/// The characters of `s`, in order.
pub fn chars_of(s: &str) -> (v: Vec<char>)
    ensures
        v@ == s@,
{
    let mut v: Vec<char> = Vec::new();
    for c in it: s.chars()
        invariant
            it.seq() == s@,
            v@ == s@.take(it.index() as int),
    {
        v.push(c);
    }
    v
}

/// The string made of the characters of `v`, in order.
pub fn string_of(v: &[char]) -> (s: String)
    ensures
        s@ == v@,
{
    let mut s = String::new();
    let mut i: usize = 0;
    while i < v.len()
        invariant
            i <= v.len(),
            s@ == v@.take(i as int),
        decreases v.len() - i,
    {
        s.push(v[i]);
        i += 1;
    }
    s
}

/// Whether `v` holds exactly the characters of `text`.
pub fn same_as(v: &[char], text: &str) -> (r: bool)
    ensures
        r == (v@ == text@),
{
    let mut matched: usize = 0;
    let mut same = true;
    for c in it: text.chars()
        invariant
            it.seq() == text@,
            same ==> matched == it.index() && matched <= v@.len() && v@.take(matched as int)
                == text@.take(matched as int),
            !same ==> v@ != text@,
    {
        if same {
            if matched < v.len() && v[matched] == c {
                matched += 1;
            } else {
                same = false;
                assert(v@ != text@) by {
                    if v@ == text@ {
                        assert(v@[matched as int] == text@[matched as int]);
                    }
                }
            }
        }
    }
    if same && matched == v.len() {
        assert(v@.take(matched as int) == v@);
        assert(text@.take(matched as int) == text@);
        true
    } else {
        false
    }
}

/// The lower-case form of an ASCII capital letter; any other character
/// is left as it is.
pub open spec fn ascii_lower(c: char) -> char {
    if 'A' <= c && c <= 'Z' {
        ((c as u8) + 32) as char
    } else {
        c
    }
}

/// `s` with each ASCII capital letter replaced by its lower-case form.
pub open spec fn lowercase(s: Seq<char>) -> Seq<char> {
    Seq::new(s.len(), |i: int| ascii_lower(s[i]))
}

/// The lower-case form of `c`.
pub fn to_ascii_lower(c: char) -> (r: char)
    ensures
        r == ascii_lower(c),
{
    if 'A' <= c && c <= 'Z' {
        ((c as u8) + 32) as char
    } else {
        c
    }
}

/// The characters of `v`, each in its lower-case form.
pub fn to_lowercase(v: &[char]) -> (r: Vec<char>)
    ensures
        r@ == lowercase(v@),
{
    let mut r: Vec<char> = Vec::new();
    let mut i: usize = 0;
    while i < v.len()
        invariant
            i <= v.len(),
            r@ == lowercase(v@).take(i as int),
        decreases v.len() - i,
    {
        r.push(to_ascii_lower(v[i]));
        i += 1;
    }
    r
}

} // verus!
