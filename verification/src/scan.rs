//! Finding the first item of a sequence that meets a condition.

use vstd::prelude::*;

verus! {

/// Whether `index` is the position of the first item of `items` that `wanted`
/// holds of.
pub open spec fn is_first_match<A>(items: Seq<A>, wanted: spec_fn(A) -> bool, index: int) -> bool {
    &&& 0 <= index < items.len()
    &&& wanted(items[index])
    &&& forall|j: int| 0 <= j < index ==> !wanted(#[trigger] items[j])
}

/// The position of the first item of `items` that `wanted` holds of, `None`
/// where it holds of no item.
pub open spec fn first_match<A>(items: Seq<A>, wanted: spec_fn(A) -> bool) -> Option<int>
    decreases items.len(),
{
    if items.len() == 0 {
        None
    } else if wanted(items[0]) {
        Some(0)
    } else {
        match first_match(items.drop_first(), wanted) {
            Some(index) => Some(index + 1),
            None => None,
        }
    }
}

/// `first_match` finds a position exactly when some item is wanted, and the
/// position it finds is the least one.
pub proof fn lemma_first_match<A>(items: Seq<A>, wanted: spec_fn(A) -> bool)
    ensures
        match first_match(items, wanted) {
            Some(index) => is_first_match(items, wanted, index),
            None => forall|j: int| 0 <= j < items.len() ==> !wanted(#[trigger] items[j]),
        },
    decreases items.len(),
{
    if items.len() > 0 && !wanted(items[0]) {
        let rest = items.drop_first();
        lemma_first_match(rest, wanted);
        match first_match(rest, wanted) {
            Some(index) => {
                assert forall|j: int| 0 <= j < index + 1 implies !wanted(#[trigger] items[j]) by {
                    if j > 0 {
                        assert(rest[j - 1] == items[j]);
                    }
                }
            },
            None => {
                assert forall|j: int| 0 <= j < items.len() implies !wanted(#[trigger] items[j]) by {
                    if j > 0 {
                        assert(rest[j - 1] == items[j]);
                    }
                }
            },
        }
    }
}

/// A position that is the first match is the one `first_match` finds.
pub proof fn lemma_first_match_is<A>(items: Seq<A>, wanted: spec_fn(A) -> bool, index: int)
    requires
        is_first_match(items, wanted, index),
    ensures
        first_match(items, wanted) == Some(index),
{
    lemma_first_match(items, wanted);
}

/// Where no item is wanted, `first_match` finds nothing.
pub proof fn lemma_first_match_none<A>(items: Seq<A>, wanted: spec_fn(A) -> bool)
    requires
        forall|j: int| 0 <= j < items.len() ==> !wanted(#[trigger] items[j]),
    ensures
        first_match(items, wanted) is None,
{
    lemma_first_match(items, wanted);
}

} // verus!
