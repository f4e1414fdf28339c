//! Small text helpers: appending and removing single characters of a
//! `String`, and testing a string for a suffix, character by character.

use vstd::prelude::*;

verus! {

/// Relies on `String::push`: appends exactly the given character.
#[verifier::external_body]
pub fn push_char(s: &mut String, c: char)
    ensures
        final(s)@ == old(s)@.push(c),
{
    s.push(c)
}

/// Relies on `String::pop`: removes and returns the last character, or
/// returns `None` and leaves the string unchanged when it is empty.
#[verifier::external_body]
pub fn pop_char(s: &mut String) -> (r: Option<char>)
    ensures
        old(s)@.len() == 0 ==> final(s)@ == old(s)@ && r is None,
        old(s)@.len() > 0 ==> final(s)@ == old(s)@.drop_last() && r == Some(old(s)@.last()),
{
    s.pop()
}

/// Whether `s` ends with `suffix`, at the level of character sequences.
pub open spec fn ends_with(s: Seq<char>, suffix: Seq<char>) -> bool {
    s.len() >= suffix.len() && s.skip(s.len() - suffix.len()) == suffix
}

/// Tests whether `s` ends with `suffix` by comparing characters backwards.
pub fn str_ends_with(s: &str, suffix: &str) -> (r: bool)
    ensures
        r == ends_with(s@, suffix@),
{
    let n = s.unicode_len();
    let m = suffix.unicode_len();
    if n < m {
        assert(!ends_with(s@, suffix@));
        return false;
    }
    let start = n - m;
    let mut i: usize = 0;
    while i < m
        invariant
            i <= m,
            m <= n,
            start == n - m,
            n == s@.len(),
            m == suffix@.len(),
            forall|j: int| 0 <= j < i ==> s@[start + j] == suffix@[j],
        decreases m - i,
    {
        if s.get_char(start + i) != suffix.get_char(i) {
            assert(s@.skip(start as int)[i as int] != suffix@[i as int]);
            assert(!ends_with(s@, suffix@));
            return false;
        }
        i = i + 1;
    }
    assert(s@.skip(start as int) =~= suffix@);
    true
}

} // verus!
