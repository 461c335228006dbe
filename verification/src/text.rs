//! Small verified helpers on strings: equality by content and joining a
//! list of words with single spaces.

use vstd::prelude::*;
use vstd::string::*;

verus! {

/// Content equality of two string slices, proved character by character.
pub fn str_eq(a: &str, b: &str) -> (r: bool)
    ensures
        r == (a@ == b@),
{
    let na = a.unicode_len();
    let nb = b.unicode_len();
    if na != nb {
        return false;
    }
    let mut i: usize = 0;
    while i < na
        invariant
            i <= na,
            na == a@.len(),
            na == b@.len(),
            forall|j: int| 0 <= j < i ==> a@[j] == b@[j],
        decreases na - i,
    {
        if a.get_char(i) != b.get_char(i) {
            return false;
        }
        i += 1;
    }
    proof {
        assert(a@ =~= b@);
    }
    true
}

/// The given words joined with single spaces, in order.
pub open spec fn joined_words(parts: Seq<Seq<char>>) -> Seq<char>
    decreases parts.len(),
{
    if parts.len() == 0 {
        Seq::empty()
    } else if parts.len() == 1 {
        parts[0]
    } else {
        joined_words(parts.drop_last()) + " "@ + parts.last()
    }
}

/// Joins a list of words with single spaces.
pub fn join_words(parts: &Vec<String>) -> (r: String)
    ensures
        r@ == joined_words(parts.deep_view()),
{
    let ghost dv = parts.deep_view();
    let mut r = String::new();
    let mut i: usize = 0;
    while i < parts.len()
        invariant
            i <= parts@.len(),
            dv == parts.deep_view(),
            r@ == joined_words(dv.take(i as int)),
        decreases parts@.len() - i,
    {
        if i > 0 {
            r.append(" ");
        }
        r.append(parts[i].as_str());
        proof {
            assert(dv.take(i + 1).drop_last() =~= dv.take(i as int));
            assert(dv.take(i + 1).last() == dv[i as int]);
            if i == 0 {
                assert(r@ =~= joined_words(dv.take(1)));
            } else {
                assert(r@ =~= joined_words(dv.take(i as int)) + " "@ + dv[i as int]);
            }
        }
        i += 1;
    }
    proof {
        assert(dv.take(dv.len() as int) =~= dv);
    }
    r
}

} // verus!
