//! Small trusted bridges to `std::string::String` operations that vstd does
//! not specify: appending and removing a single character.

use vstd::prelude::*;
use vstd::string::StrSliceExecFns;

verus! {

/// Relies on `String::push`: appends the given character to the end of the
/// string.
#[verifier::external_body]
pub fn string_push(s: &mut String, c: char)
    ensures
        final(s)@ == old(s)@.push(c),
{
    s.push(c)
}

/// Relies on `String::pop`: removes the last character of the string and
/// returns it, or returns `None` and leaves the string unchanged when it is
/// empty.
#[verifier::external_body]
pub fn string_pop(s: &mut String) -> (r: Option<char>)
    ensures
        old(s)@.len() == 0 ==> final(s)@ == old(s)@ && r is None,
        old(s)@.len() > 0 ==> final(s)@ == old(s)@.drop_last() && r == Some(old(s)@.last()),
{
    s.pop()
}

/// Character-by-character string comparison, proved against the views.
pub fn str_eq(a: &str, b: &str) -> (r: bool)
    ensures
        r == (a@ == b@),
{
    let la = a.unicode_len();
    let lb = b.unicode_len();
    if la != lb {
        assert(a@ != b@);
        return false;
    }
    let mut i: usize = 0;
    while i < la
        invariant
            la == a@.len(),
            la == b@.len(),
            i <= la,
            forall|j: int| 0 <= j < i ==> a@[j] == b@[j],
        decreases la - i,
    {
        if a.get_char(i) != b.get_char(i) {
            return false;
        }
        i += 1;
    }
    proof {
        assert(a@ =~= b@);
    }
    true
}

} // verus!
