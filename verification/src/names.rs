//! Lists of names, seen as sequences of character sequences.

use vstd::prelude::*;

verus! {

/// The character sequences of a list of strings, in order.
pub open spec fn texts(list: Seq<String>) -> Seq<Seq<char>> {
    list.map_values(|s: String| s@)
}

/// The character sequences of a list that grew by one string are those of
/// the list, and then those of the string.
pub proof fn lemma_texts_push(list: Seq<String>, last: String)
    ensures
        texts(list.push(last)) == texts(list).push(last@),
{
    assert(texts(list.push(last)) =~= texts(list).push(last@));
}

/// Adding `name` to `list` unless it is already there.
pub open spec fn with_name(list: Seq<Seq<char>>, name: Seq<char>) -> Seq<Seq<char>> {
    if list.contains(name) {
        list
    } else {
        list.push(name)
    }
}

/// The number of places at which `name` stands in `list`.
pub open spec fn occurrences(list: Seq<Seq<char>>, name: Seq<char>) -> nat
    decreases list.len(),
{
    if list.len() == 0 {
        0
    } else {
        occurrences(list.drop_last(), name) + if list.last() == name {
            1nat
        } else {
            0nat
        }
    }
}

/// A name that is absent from a list occurs in it zero times.
pub proof fn lemma_absent_occurs_never(list: Seq<Seq<char>>, name: Seq<char>)
    requires
        !list.contains(name),
    ensures
        occurrences(list, name) == 0,
    decreases list.len(),
{
    if list.len() > 0 {
        assert(list.last() == list[list.len() - 1]);
        assert forall|i: int| 0 <= i < list.drop_last().len() implies list.drop_last()[i]
            != name by {
            assert(list.drop_last()[i] == list[i]);
        }
        lemma_absent_occurs_never(list.drop_last(), name);
    }
}

/// In a list without repetition a name that is present occurs exactly once.
pub proof fn lemma_present_occurs_once(list: Seq<Seq<char>>, name: Seq<char>)
    requires
        list.no_duplicates(),
        list.contains(name),
    ensures
        occurrences(list, name) == 1,
    decreases list.len(),
{
    let front = list.drop_last();
    assert(list.len() > 0);
    assert forall|i: int, j: int| 0 <= i < front.len() && 0 <= j < front.len() && i != j implies front[i]
        != front[j] by {
        assert(front[i] == list[i] && front[j] == list[j]);
    }
    if list.last() == name {
        assert forall|i: int| 0 <= i < front.len() implies front[i] != name by {
            assert(front[i] == list[i]);
        }
        lemma_absent_occurs_never(front, name);
    } else {
        let k = choose|k: int| 0 <= k < list.len() && list[k] == name;
        assert(front[k] == name);
        lemma_present_occurs_once(front, name);
    }
}

/// Adding an absent name to a list without repetition leaves it without
/// repetition.
pub proof fn lemma_with_name_keeps_distinct(list: Seq<Seq<char>>, name: Seq<char>)
    requires
        list.no_duplicates(),
    ensures
        with_name(list, name).no_duplicates(),
        with_name(list, name).contains(name),
{
    if !list.contains(name) {
        let grown = list.push(name);
        assert(grown[list.len() as int] == name);
        assert forall|i: int, j: int| 0 <= i < grown.len() && 0 <= j < grown.len() && i != j implies grown[i]
            != grown[j] by {
            if i < list.len() && j < list.len() {
                assert(grown[i] == list[i] && grown[j] == list[j]);
            } else if i < list.len() {
                assert(grown[i] == list[i]);
            } else {
                assert(grown[j] == list[j]);
            }
        }
    }
}

/// Adding a name to a list takes none away.
pub proof fn lemma_with_name_keeps(list: Seq<Seq<char>>, name: Seq<char>, other: Seq<char>)
    ensures
        list.contains(other) ==> with_name(list, name).contains(other),
        with_name(list, name).contains(name),
        with_name(list, name).contains(other) ==> list.contains(other) || other == name,
{
    if !list.contains(name) {
        let grown = list.push(name);
        assert(grown[list.len() as int] == name);
        if list.contains(other) {
            let k = choose|k: int| 0 <= k < list.len() && list[k] == other;
            assert(grown[k] == other);
        }
        if grown.contains(other) {
            let k = choose|k: int| 0 <= k < grown.len() && grown[k] == other;
            if k < list.len() {
                assert(list[k] == other);
            }
        }
    }
}

/// Whether `name` stands in `list`.
pub fn contains_name(list: &Vec<String>, name: &str) -> (found: bool)
    ensures
        found == texts(list@).contains(name@),
{
    let wanted = name.to_owned();
    let mut i: usize = 0;
    while i < list.len()
        invariant
            i <= list.len(),
            wanted@ == name@,
            forall|k: int| 0 <= k < i ==> texts(list@)[k] != name@,
        decreases list.len() - i,
    {
        if list[i] == wanted {
            assert(texts(list@)[i as int] == name@);
            return true;
        }
        i = i + 1;
    }
    false
}

} // verus!
