use vstd::prelude::*;

verus! {

broadcast use vstd::seq_lib::group_seq_properties;

/// The number of distinct items of `s`.
pub open spec fn distinct_count<A>(s: Seq<A>) -> nat {
    s.to_set().len()
}

/// A sequence has at most as many distinct items as items, and exactly as
/// many when no item occurs twice.
pub proof fn lemma_distinct_count<A>(s: Seq<A>)
    ensures
        distinct_count(s) <= s.len(),
        s.no_duplicates() <==> distinct_count(s) == s.len(),
{
    s.lemma_cardinality_of_set();
    if s.no_duplicates() {
        s.unique_seq_to_set();
    }
    if distinct_count(s) == s.len() {
        s.lemma_no_dup_set_cardinality();
    }
}

/// Whether some text of `seen` equals `item`.
pub fn contains_text(seen: &Vec<String>, item: &String) -> (r: bool)
    ensures
        r == seen.deep_view().contains(item@),
{
    let mut i: usize = 0;
    while i < seen.len()
        invariant
            i <= seen.len(),
            forall|j: int| 0 <= j < i ==> seen.deep_view()[j] != item@,
        decreases seen.len() - i,
    {
        if seen[i] == *item {
            assert(seen.deep_view()[i as int] == item@);
            return true;
        }
        i = i + 1;
    }
    false
}

/// Adds a copy of `item` to `seen` unless an equal text is there already.
pub fn note_text(seen: &mut Vec<String>, item: &String)
    requires
        old(seen).deep_view().no_duplicates(),
    ensures
        final(seen).deep_view().no_duplicates(),
        final(seen).deep_view().to_set() == old(seen).deep_view().to_set().insert(item@),
{
    if !contains_text(seen, item) {
        let ghost before = seen.deep_view();
        seen.push(item.clone());
        proof {
            assert(seen.deep_view() =~= before.push(item@));
        }
    } else {
        assert(seen.deep_view().to_set() =~= seen.deep_view().to_set().insert(item@));
    }
}

/// Whether no two texts of `items` are equal.
pub fn texts_are_distinct(items: &Vec<String>) -> (r: bool)
    ensures
        r == items.deep_view().no_duplicates(),
{
    let mut i: usize = 0;
    while i < items.len()
        invariant
            i <= items.len(),
            items.deep_view().subrange(0, i as int).no_duplicates(),
        decreases items.len() - i,
    {
        let mut j: usize = 0;
        while j < i
            invariant
                i < items.len(),
                j <= i,
                forall|k: int| 0 <= k < j ==> items.deep_view()[k] != items.deep_view()[i as int],
            decreases i - j,
        {
            if items[j] == items[i] {
                assert(items.deep_view()[j as int] == items.deep_view()[i as int]);
                return false;
            }
            j = j + 1;
        }
        assert(items.deep_view().subrange(0, (i + 1) as int).no_duplicates()) by {
            let s = items.deep_view().subrange(0, (i + 1) as int);
            assert forall|a: int, b: int| 0 <= a < s.len() && 0 <= b < s.len() && a != b implies s[a] != s[b] by {
                if a < i && b < i {
                    assert(items.deep_view().subrange(0, i as int)[a] == s[a]);
                    assert(items.deep_view().subrange(0, i as int)[b] == s[b]);
                }
            }
        }
        i = i + 1;
    }
    assert(items.deep_view().subrange(0, i as int) =~= items.deep_view());
    true
}

} // verus!
