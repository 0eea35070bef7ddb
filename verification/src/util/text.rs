//! Verified building blocks for working with strings as character sequences.

use vstd::prelude::*;
use vstd::string::StringExecFns;

verus! {

/// Appends one character to a string.
///
/// Trusted: `String::push` of the standard library, which adds the character
/// at the end and leaves the rest of the string as it was.
#[verifier::external_body]
pub(crate) fn push_char(s: &mut String, c: char)
    ensures
        final(s)@ == old(s)@.push(c),
{
    s.push(c)
}

/// The characters of `s`, in order.
pub fn chars_of(s: &str) -> (v: Vec<char>)
    ensures
        v@ == s@,
{
    let mut v: Vec<char> = Vec::new();
    for c in it: s.chars()
        invariant
            v@ == it.seq().take(it.index()),
            it.seq() == s@,
    {
        v.push(c);
    }
    v
}

/// The string made of the characters `chars[from..to]`.
pub fn string_of(chars: &Vec<char>, from: usize, to: usize) -> (s: String)
    requires
        from <= to <= chars.len(),
    ensures
        s@ == chars@.subrange(from as int, to as int),
{
    let mut s = String::new();
    let mut i: usize = from;
    while i < to
        invariant
            from <= i <= to <= chars.len(),
            s@ == chars@.subrange(from as int, i as int),
        decreases to - i,
    {
        push_char(&mut s, chars[i]);
        i += 1;
    }
    s
}

/// Whether the character `c` occurs in `chars[from..to]`.
pub fn holds_char(chars: &Vec<char>, from: usize, to: usize, c: char) -> (b: bool)
    requires
        from <= to <= chars.len(),
    ensures
        b == chars@.subrange(from as int, to as int).contains(c),
{
    let ghost part = chars@.subrange(from as int, to as int);
    let mut k: usize = from;
    while k < to
        invariant
            from <= k <= to <= chars.len(),
            part == chars@.subrange(from as int, to as int),
            forall|j: int| 0 <= j < k - from ==> part[j] != c,
        decreases to - k,
    {
        if chars[k] == c {
            assert(part[k - from] == c);
            return true;
        }
        k += 1;
    }
    false
}

/// Whether `s` ends with the character `c`.
pub fn ends_with_char(s: &str, c: char) -> (b: bool)
    ensures
        b == (s@.len() > 0 && s@.last() == c),
{
    let n = s.unicode_len();
    n > 0 && s.get_char(n - 1) == c
}

/// `a` followed by `b`.
pub fn concat_str(a: &str, b: &str) -> (s: String)
    ensures
        s@ == a@ + b@,
{
    let mut s = String::from_str(a);
    s.append(b);
    s
}

} // verus!
