//! Lists that behave as sets: adding items appends only those not yet present.
use vstd::prelude::*;

verus! {

/// `old` followed by each item of `items` that is not already there, in order.
pub open spec fn union_extend<T>(old: Seq<T>, items: Seq<T>) -> Seq<T>
    decreases items.len(),
{
    if items.len() == 0 {
        old
    } else {
        let prev = union_extend(old, items.drop_last());
        if prev.contains(items.last()) {
            prev
        } else {
            prev.push(items.last())
        }
    }
}

/// The views of a list of strings.
pub open spec fn str_views(v: Seq<String>) -> Seq<Seq<char>> {
    v.map_values(|s: String| s@)
}

/// The views of a list of string slices.
pub open spec fn slice_views(v: Seq<&str>) -> Seq<Seq<char>> {
    v.map_values(|s: &str| s@)
}

/// Extending a list holds exactly the union of both, keeps what was there in
/// front, and brings in no duplicates.
pub proof fn lemma_union_extend<T>(old: Seq<T>, items: Seq<T>)
    ensures
        union_extend(old, items).to_set() == old.to_set().union(items.to_set()),
        old.no_duplicates() ==> union_extend(old, items).no_duplicates(),
        old.is_prefix_of(union_extend(old, items)),
    decreases items.len(),
{
    if items.len() > 0 {
        let front = items.drop_last();
        let x = items.last();
        lemma_union_extend(old, front);
        let prev = union_extend(old, front);
        assert(items =~= front.push(x));
        front.lemma_push_to_set_commute(x);
        if !prev.contains(x) {
            prev.lemma_push_to_set_commute(x);
            assert(prev.is_prefix_of(prev.push(x)));
            assert(old.is_prefix_of(prev.push(x))) by {
                assert forall|i: int| 0 <= i < old.len() implies old[i] == prev.push(x)[i] by {
                    assert(old[i] == prev[i]);
                }
            }
        } else {
            assert(prev.to_set().contains(x));
            assert(prev.to_set().insert(x) =~= prev.to_set());
        }
        assert(union_extend(old, items).to_set() =~= old.to_set().union(items.to_set()));
    } else {
        assert(items.to_set() =~= Set::empty());
        assert(old.to_set().union(items.to_set()) =~= old.to_set());
        assert(old.is_prefix_of(old));
    }
}

/// Whether `s` is among the strings of `list`.
pub fn contains_str(list: &Vec<String>, s: &str) -> (r: bool)
    ensures
        r == str_views(list@).contains(s@),
{
    let mut i: usize = 0;
    while i < list.len()
        invariant
            i <= list@.len(),
            forall|j: int| 0 <= j < i ==> list@[j]@ != s@,
        decreases list@.len() - i,
    {
        if crate::text::str_eq(list[i].as_str(), s) {
            assert(str_views(list@)[i as int] == s@);
            return true;
        }
        i = i + 1;
    }
    assert forall|j: int| 0 <= j < str_views(list@).len() implies str_views(list@)[j] != s@ by {}
    false
}

/// Appends each string of `items` that `list` does not hold yet.
pub fn extend_strings(list: &mut Vec<String>, items: &[&str])
    ensures
        str_views(final(list)@) == union_extend(str_views(old(list)@), slice_views(items@)),
{
    let ghost start = str_views(list@);
    let mut i: usize = 0;
    while i < items.len()
        invariant
            i <= items@.len(),
            str_views(list@) == union_extend(start, slice_views(items@).take(i as int)),
        decreases items@.len() - i,
    {
        let item = items[i];
        let ghost prev = str_views(list@);
        assert(slice_views(items@).take(i + 1).drop_last() =~= slice_views(items@).take(i as int));
        if !contains_str(list, item) {
            list.push(item.to_string());
            assert(str_views(list@) =~= prev.push(item@));
        }
        i = i + 1;
    }
    assert(slice_views(items@).take(items@.len() as int) =~= slice_views(items@));
}

} // verus!
