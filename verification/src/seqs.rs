//! Searching and thinning sequences.

use vstd::prelude::*;

verus! {

/// The index of the first entry of `s` with the property `p`, or the length
/// of `s` if no entry has it.
pub open spec fn first_index<T>(s: Seq<T>, p: spec_fn(T) -> bool) -> int
    decreases s.len(),
{
    if s.len() == 0 {
        0
    } else {
        let k = first_index(s.drop_last(), p);
        if k < s.len() - 1 {
            k
        } else if p(s.last()) {
            s.len() - 1
        } else {
            s.len() as int
        }
    }
}

/// The first index lies in range, no entry before it has the property, and
/// the entry there has it.
pub proof fn lemma_first_index<T>(s: Seq<T>, p: spec_fn(T) -> bool)
    ensures
        0 <= first_index(s, p) <= s.len(),
        forall|j: int| 0 <= j < first_index(s, p) ==> !p(#[trigger] s[j]),
        first_index(s, p) < s.len() ==> p(s[first_index(s, p)]),
    decreases s.len(),
{
    if s.len() > 0 {
        lemma_first_index(s.drop_last(), p);
        assert forall|j: int| 0 <= j < first_index(s, p) implies !p(#[trigger] s[j]) by {
            if j < s.len() - 1 {
                assert(s.drop_last()[j] == s[j]);
            }
        }
    }
}

/// An index that holds the first entry with the property is the first
/// index.
pub proof fn lemma_first_index_is<T>(s: Seq<T>, p: spec_fn(T) -> bool, k: int)
    requires
        0 <= k <= s.len(),
        forall|j: int| 0 <= j < k ==> !p(#[trigger] s[j]),
        k < s.len() ==> p(s[k]),
    ensures
        first_index(s, p) == k,
{
    lemma_first_index(s, p);
}

/// Whether some entry of `s` has the property `p`.
pub open spec fn any<T>(s: Seq<T>, p: spec_fn(T) -> bool) -> bool {
    first_index(s, p) < s.len()
}

/// The entries of `s` that have the property `p`, in the order they stand
/// in.
pub open spec fn kept<T>(s: Seq<T>, p: spec_fn(T) -> bool) -> Seq<T>
    decreases s.len(),
{
    if s.len() == 0 {
        Seq::empty()
    } else if p(s.last()) {
        kept(s.drop_last(), p).push(s.last())
    } else {
        kept(s.drop_last(), p)
    }
}

/// Thinning adds nothing: what is kept was there, and where nothing
/// occurred twice, nothing occurs twice among what is kept.
pub proof fn lemma_kept<T>(s: Seq<T>, p: spec_fn(T) -> bool)
    ensures
        forall|x: T| kept(s, p).contains(x) ==> s.contains(x),
        s.no_duplicates() ==> kept(s, p).no_duplicates(),
    decreases s.len(),
{
    if s.len() > 0 {
        let rest = s.drop_last();
        let k = kept(rest, p);
        lemma_kept(rest, p);
        assert forall|x: T| kept(s, p).contains(x) implies s.contains(x) by {
            let i = choose|i: int| 0 <= i < kept(s, p).len() && kept(s, p)[i] == x;
            if p(s.last()) && i == k.len() {
                assert(s[s.len() - 1] == x);
            } else {
                assert(k[i] == x);
                assert(k.contains(x));
                assert(rest.contains(x));
                let j = choose|j: int| 0 <= j < rest.len() && rest[j] == x;
                assert(s[j] == x);
            }
        }
        if s.no_duplicates() {
            assert(rest.no_duplicates()) by {
                assert forall|i: int, j: int|
                    0 <= i < rest.len() && 0 <= j < rest.len() && i != j implies rest[i]
                    != rest[j] by {
                    assert(rest[i] == s[i] && rest[j] == s[j]);
                }
            }
            if p(s.last()) {
                assert(!k.contains(s.last())) by {
                    if k.contains(s.last()) {
                        assert(rest.contains(s.last()));
                        let j = choose|j: int| 0 <= j < rest.len() && rest[j] == s.last();
                        assert(s[j] == s[s.len() - 1]);
                    }
                }
                assert forall|i: int, j: int|
                    0 <= i < k.len() + 1 && 0 <= j < k.len() + 1 && i != j implies k.push(
                    s.last(),
                )[i] != k.push(s.last())[j] by {
                    if i < k.len() && j < k.len() {
                    } else if i < k.len() {
                        assert(k.contains(k[i]));
                    } else {
                        assert(k.contains(k[j]));
                    }
                }
            }
        }
    }
}

} // verus!
