//! The first element of a sequence that fits.
use vstd::prelude::*;

verus! {

/// The position of the first element that fits, or the length.
pub open spec fn first_index<T>(s: Seq<T>, fits: spec_fn(T) -> bool) -> int
    decreases s.len(),
{
    if s.len() == 0 || fits(s[0]) {
        0
    } else {
        1 + first_index(s.drop_first(), fits)
    }
}

/// A position is the first one if nothing before it fits, and the element
/// there does or there is none.
pub proof fn lemma_first_index<T>(s: Seq<T>, fits: spec_fn(T) -> bool, i: int)
    requires
        0 <= i <= s.len(),
        forall|j: int| 0 <= j < i ==> !fits(#[trigger] s[j]),
        i < s.len() ==> fits(s[i]),
    ensures
        first_index(s, fits) == i,
    decreases s.len(),
{
    if i > 0 {
        assert(!fits(s[0]));
        assert forall|j: int| 0 <= j < i - 1 implies !fits(#[trigger] s.drop_first()[j]) by {
            assert(s.drop_first()[j] == s[j + 1]);
        }
        lemma_first_index(s.drop_first(), fits, i - 1);
    }
}

/// Nothing before the first position fits, and the element there does or there
/// is none.
pub proof fn lemma_first_index_fits<T>(s: Seq<T>, fits: spec_fn(T) -> bool)
    ensures
        0 <= first_index(s, fits) <= s.len(),
        first_index(s, fits) < s.len() ==> fits(s[first_index(s, fits)]),
        forall|j: int| 0 <= j < first_index(s, fits) ==> !fits(#[trigger] s[j]),
    decreases s.len(),
{
    if s.len() > 0 && !fits(s[0]) {
        lemma_first_index_fits(s.drop_first(), fits);
        assert forall|j: int| 0 <= j < first_index(s, fits) implies !fits(#[trigger] s[j]) by {
            if j > 0 {
                assert(s.drop_first()[j - 1] == s[j]);
            }
        }
    }
}

} // verus!
