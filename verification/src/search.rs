//! The first place of a value in a sequence.
use vstd::prelude::*;

verus! {

/// True if `index` is the first place of `items` that holds `value`.
pub open spec fn is_first<T>(items: Seq<T>, value: T, index: int) -> bool {
    &&& 0 <= index < items.len()
    &&& items[index] == value
    &&& forall|j: int| 0 <= j < index ==> items[j] != value
}

/// The first place of `items` that holds `value`. Meaningful only if
/// `items` contains `value`.
pub open spec fn first_index<T>(items: Seq<T>, value: T) -> int {
    choose|index: int| is_first(items, value, index)
}

/// There is one first place at most: whoever has found it knows
/// `first_index`.
pub proof fn lemma_first_index<T>(items: Seq<T>, value: T, index: int)
    requires
        is_first(items, value, index),
    ensures
        first_index(items, value) == index,
        items.contains(value),
{
    let chosen = first_index(items, value);
    assert(is_first(items, value, chosen));
    if chosen < index {
        assert(items[chosen] != value);
    }
    if index < chosen {
        assert(items[index] != value);
    }
}

/// Where a value occurs, it has a first place.
pub proof fn lemma_first_index_exists<T>(items: Seq<T>, value: T)
    requires
        items.contains(value),
    ensures
        is_first(items, value, first_index(items, value)),
{
    let some = choose|index: int| 0 <= index < items.len() && items[index] == value;
    lemma_first_below(items, value, some);
}

proof fn lemma_first_below<T>(items: Seq<T>, value: T, bound: int)
    requires
        0 <= bound < items.len(),
        items[bound] == value,
    ensures
        exists|index: int| is_first(items, value, index),
    decreases bound,
{
    if exists|j: int| 0 <= j < bound && items[j] == value {
        let j = choose|j: int| 0 <= j < bound && items[j] == value;
        lemma_first_below(items, value, j);
    } else {
        assert(is_first(items, value, bound));
    }
}

} // verus!
