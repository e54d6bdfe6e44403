//! The few operations on `String` that the standard library offers and that
//! have no verified contract of their own.

use vstd::prelude::*;

verus! {

/// The lower-case form of a text, as `str::to_lowercase` of the standard
/// library gives it. It follows Unicode's case tables, so nothing more is
/// said of it here than that equal texts have equal lower-case forms.
pub uninterp spec fn lowercase(s: Seq<char>) -> Seq<char>;

/// Calls `str::to_lowercase`. Trusted: the result is the lower-case form of
/// the argument.
#[verifier::external_body]
pub(crate) fn to_lowercase(s: &str) -> (lowered: String)
    ensures
        lowered@ == lowercase(s@),
{
    s.to_lowercase()
}

/// Calls `String::push`. Trusted: the character is appended and nothing else
/// changes.
#[verifier::external_body]
pub(crate) fn push_char(s: &mut String, c: char)
    ensures
        final(s)@ == old(s)@.push(c),
{
    s.push(c);
}

/// Calls `String::pop`. Trusted: the last character is removed and returned;
/// an empty string stays empty and gives `None`.
#[verifier::external_body]
pub(crate) fn pop_char(s: &mut String) -> (popped: Option<char>)
    ensures
        old(s)@.len() == 0 ==> popped.is_none() && final(s)@ == old(s)@,
        old(s)@.len() > 0 ==> popped == Some(old(s)@.last()) && final(s)@ == old(s)@.drop_last(),
{
    s.pop()
}

/// The characters of a text, one by one.
pub fn chars_of(s: &str) -> (chars: Vec<char>)
    ensures
        chars@ == s@,
{
    let len = s.unicode_len();
    let mut chars: Vec<char> = Vec::new();
    let mut next: usize = 0;
    while next < len
        invariant
            next <= len,
            len == s@.len(),
            chars@ == s@.take(next as int),
        decreases len - next,
    {
        chars.push(s.get_char(next));
        assert(s@.take(next + 1) =~= s@.take(next as int).push(s@[next as int]));
        next += 1;
    }
    assert(s@.take(len as int) =~= s@);
    chars
}

} // verus!
