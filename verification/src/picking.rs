//! Picking the last item of a sequence that satisfies a predicate: the rule
//! by which the topmost element, and the grabbed control point, are chosen.

use vstd::prelude::*;

verus! {

/// The greatest index of `s` whose item satisfies `f`, if any does.
pub open spec fn last_index_where<A>(s: Seq<A>, f: spec_fn(A) -> bool) -> Option<int>
    decreases s.len(),
{
    if s.len() == 0 {
        None
    } else if f(s.last()) {
        Some(s.len() - 1)
    } else {
        last_index_where(s.drop_last(), f)
    }
}

/// `last_index_where` is determined by what it promises: an index that
/// satisfies `f` with none above it that does, or `None` where no index does.
pub proof fn lemma_last_index_where<A>(s: Seq<A>, f: spec_fn(A) -> bool, r: Option<int>)
    requires
        r matches Some(i) ==> 0 <= i < s.len() && f(s[i]) && forall|j: int|
            i < j < s.len() ==> !f(#[trigger] s[j]),
        r is None ==> forall|j: int| 0 <= j < s.len() ==> !f(#[trigger] s[j]),
    ensures
        last_index_where(s, f) == r,
    decreases s.len(),
{
    if s.len() == 0 {
    } else if f(s.last()) {
        assert(s.last() == s[s.len() - 1]);
    } else {
        let t = s.drop_last();
        assert forall|j: int| 0 <= j < t.len() implies t[j] == s[j] by {}
        match r {
            Some(i) => {
                assert(i < s.len() - 1);
                assert(t[i] == s[i]);
                assert forall|j: int| i < j < t.len() implies !f(#[trigger] t[j]) by {
                    assert(t[j] == s[j]);
                }
            },
            None => {
                assert forall|j: int| 0 <= j < t.len() implies !f(#[trigger] t[j]) by {
                    assert(t[j] == s[j]);
                }
            },
        }
        lemma_last_index_where(t, f, r);
    }
}

/// What `last_index_where` promises of its result.
pub proof fn lemma_last_index_where_holds<A>(s: Seq<A>, f: spec_fn(A) -> bool)
    ensures
        last_index_where(s, f) matches Some(i) ==> 0 <= i < s.len() && f(s[i]) && forall|j: int|
            i < j < s.len() ==> !f(#[trigger] s[j]),
        last_index_where(s, f) is None ==> forall|j: int|
            0 <= j < s.len() ==> !f(#[trigger] s[j]),
    decreases s.len(),
{
    if s.len() == 0 {
    } else if f(s.last()) {
    } else {
        let t = s.drop_last();
        lemma_last_index_where_holds(t, f);
        assert forall|j: int| 0 <= j < t.len() implies t[j] == s[j] by {}
        match last_index_where(t, f) {
            Some(i) => {
                assert(t[i] == s[i]);
                assert forall|j: int| i < j < s.len() implies !f(#[trigger] s[j]) by {
                    if j < t.len() {
                        assert(t[j] == s[j]);
                    }
                }
            },
            None => {
                assert forall|j: int| 0 <= j < s.len() implies !f(#[trigger] s[j]) by {
                    if j < t.len() {
                        assert(t[j] == s[j]);
                    }
                }
            },
        }
    }
}

} // verus!
