//! Small executable helpers over `String` and `&str`.
//!
//! Everything in the crate models identifiers and generated names as
//! `Seq<char>`; these helpers build and compare such strings.

use vstd::prelude::*;
use vstd::string::StrSliceExecFns;

verus! {

/// Relies on `String::push`: appends the given `char` to the end of the
/// string.
#[verifier::external_body]
pub(crate) fn push_char(s: &mut String, c: char)
    ensures
        final(s)@ == old(s)@.push(c),
{
    s.push(c)
}

/// Character-wise string equality, phrased over the views.
pub fn str_eq(a: &str, b: &str) -> (r: bool)
    ensures
        r == (a@ == b@),
{
    let na = a.unicode_len();
    let nb = b.unicode_len();
    if na != nb {
        assert(a@ != b@) by {
            assert(a@.len() != b@.len());
        }
        return false;
    }
    let mut i: usize = 0;
    while i < na
        invariant
            na == a@.len(),
            na == b@.len(),
            i <= na,
            forall|j: int| 0 <= j < i ==> a@[j] == b@[j],
        decreases na - i,
    {
        if a.get_char(i) != b.get_char(i) {
            assert(a@ != b@) by {
                assert(a@[i as int] != b@[i as int]);
            }
            return false;
        }
        i += 1;
    }
    proof {
        assert(a@ =~= b@);
    }
    true
}

/// Appends every character of `tail` to `s`.
pub(crate) fn push_str_chars(s: &mut String, tail: &str)
    ensures
        final(s)@ == old(s)@ + tail@,
{
    let n = tail.unicode_len();
    let mut i: usize = 0;
    while i < n
        invariant
            n == tail@.len(),
            i <= n,
            s@ == old(s)@ + tail@.take(i as int),
        decreases n - i,
    {
        let c = tail.get_char(i);
        push_char(s, c);
        proof {
            assert(old(s)@ + tail@.take(i + 1 as int) =~= (old(s)@ + tail@.take(i as int)).push(
                tail@[i as int],
            ));
        }
        i += 1;
    }
    proof {
        assert(tail@.take(n as int) =~= tail@);
    }
}

} // verus!
