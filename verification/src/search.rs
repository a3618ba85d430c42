use vstd::prelude::*;

verus! {

/// Whether `i` is the position of the first item of `items` that is wanted.
pub open spec fn is_first<T>(items: Seq<T>, wanted: spec_fn(T) -> bool, i: int) -> bool {
    &&& 0 <= i < items.len()
    &&& wanted(items[i])
    &&& forall|j: int| 0 <= j < i ==> !wanted(#[trigger] items[j])
}

/// The position of the first wanted item, if any item is wanted.
pub open spec fn first_where<T>(items: Seq<T>, wanted: spec_fn(T) -> bool) -> Option<int> {
    if exists|i: int| is_first(items, wanted, i) {
        Some(choose|i: int| is_first(items, wanted, i))
    } else {
        None
    }
}

/// A first wanted item is the only one: `first_where` finds it.
pub proof fn lemma_first_where_found<T>(items: Seq<T>, wanted: spec_fn(T) -> bool, i: int)
    requires
        is_first(items, wanted, i),
    ensures
        first_where(items, wanted) == Some(i),
{
    let k = choose|k: int| is_first(items, wanted, k);
    if k < i {
        assert(!wanted(items[k]));
    } else if i < k {
        assert(!wanted(items[i]));
    }
}

/// Where no item is wanted, `first_where` finds nothing, and the other way
/// round.
pub proof fn lemma_first_where_none<T>(items: Seq<T>, wanted: spec_fn(T) -> bool)
    ensures
        first_where(items, wanted) is None <==> forall|j: int|
            0 <= j < items.len() ==> !wanted(#[trigger] items[j]),
{
    if exists|j: int| 0 <= j < items.len() && wanted(#[trigger] items[j]) {
        let j = choose|j: int| 0 <= j < items.len() && wanted(#[trigger] items[j]);
        lemma_some_first(items, wanted, j);
    }
}

/// Below any wanted item stands a first one.
proof fn lemma_some_first<T>(items: Seq<T>, wanted: spec_fn(T) -> bool, j: int)
    requires
        0 <= j < items.len(),
        wanted(items[j]),
    ensures
        exists|i: int| is_first(items, wanted, i),
    decreases j,
{
    if exists|k: int| 0 <= k < j && wanted(#[trigger] items[k]) {
        let k = choose|k: int| 0 <= k < j && wanted(#[trigger] items[k]);
        lemma_some_first(items, wanted, k);
    } else {
        assert(is_first(items, wanted, j));
    }
}

/// How the filter of a sequence grows with the sequence: by the next item
/// where it is wanted, and not at all where it is not.
pub proof fn lemma_filter_take_step<T>(items: Seq<T>, wanted: spec_fn(T) -> bool, i: int)
    requires
        0 <= i < items.len(),
    ensures
        items.take(i + 1).filter(wanted) == if wanted(items[i]) {
            items.take(i).filter(wanted).push(items[i])
        } else {
            items.take(i).filter(wanted)
        },
{
    reveal(Seq::filter);
    assert(items.take(i + 1).drop_last() =~= items.take(i));
}

} // verus!
