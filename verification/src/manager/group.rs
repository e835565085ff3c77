//! Grouping values by a text key, keeping the order in which keys first
//! appear and, within a group, the order of the values.
use crate::text::same_text;
use vstd::prelude::*;

verus! {

/// The position of the group with key `key`, the first one if several.
pub open spec fn find_key<V>(groups: Seq<(Seq<char>, Seq<V>)>, key: Seq<char>) -> Option<int>
    decreases groups.len(),
{
    if groups.len() == 0 {
        None
    } else {
        match find_key(groups.drop_last(), key) {
            Some(i) => Some(i),
            None => if groups.last().0 == key {
                Some(groups.len() - 1)
            } else {
                None
            },
        }
    }
}

/// Adds `v` to the group of `key`, opening a new group at the end when
/// there is none.
pub open spec fn group_insert<V>(groups: Seq<(Seq<char>, Seq<V>)>, key: Seq<char>, v: V) -> Seq<
    (Seq<char>, Seq<V>),
> {
    match find_key(groups, key) {
        Some(i) => groups.update(i, (key, groups[i].1.push(v))),
        None => groups.push((key, seq![v])),
    }
}

/// The keyed values `items`, grouped by key in order of first appearance.
pub open spec fn grouped<V>(items: Seq<(Seq<char>, V)>) -> Seq<(Seq<char>, Seq<V>)>
    decreases items.len(),
{
    if items.len() == 0 {
        Seq::empty()
    } else {
        group_insert(grouped(items.drop_last()), items.last().0, items.last().1)
    }
}

/// Groups as keys and the deep views of their values.
pub open spec fn groups_view<V: DeepView>(groups: Seq<(String, Vec<V>)>) -> Seq<
    (Seq<char>, Seq<V::V>),
> {
    Seq::new(groups.len(), |i: int| (groups[i].0@, groups[i].1.deep_view()))
}

proof fn lemma_find_key<V>(groups: Seq<(Seq<char>, Seq<V>)>, key: Seq<char>)
    ensures
        match find_key(groups, key) {
            Some(i) => 0 <= i < groups.len() && groups[i].0 == key && forall|j: int|
                0 <= j < i ==> #[trigger] groups[j].0 != key,
            None => forall|j: int| 0 <= j < groups.len() ==> #[trigger] groups[j].0 != key,
        },
    decreases groups.len(),
{
    if groups.len() > 0 {
        lemma_find_key(groups.drop_last(), key);
        assert forall|j: int| 0 <= j < groups.len() - 1 implies groups[j] == groups.drop_last()[j] by {}
    }
}

/// Adds `v` to the group of `key` in `groups`.
pub fn group_push<V: DeepView>(groups: &mut Vec<(String, Vec<V>)>, key: String, v: V)
    ensures
        groups_view(final(groups)@) == group_insert(groups_view(old(groups)@), key@, v.deep_view()),
{
    let ghost before = groups_view(groups@);
    proof {
        lemma_find_key(before, key@);
    }
    let mut i: usize = 0;
    while i < groups.len()
        invariant
            before == groups_view(groups@),
            groups@ == old(groups)@,
            i <= groups.len(),
            forall|j: int| 0 <= j < i ==> #[trigger] before[j].0 != key@,
        decreases groups.len() - i,
    {
        if same_text(groups[i].0.as_str(), key.as_str()) {
            assert(before[i as int].0 == key@);
            proof {
                lemma_find_key(before, key@);
            }
            assert(find_key(before, key@) == Some(i as int));
            let (k, mut values) = groups.remove(i);
            let ghost old_values = values.deep_view();
            values.push(v);
            assert(values.deep_view() =~= old_values.push(v.deep_view()));
            groups.insert(i, (k, values));
            assert(groups_view(groups@) =~= before.update(
                i as int,
                (key@, before[i as int].1.push(v.deep_view())),
            ));
            return;
        }
        i = i + 1;
    }
    proof {
        lemma_find_key(before, key@);
    }
    assert(find_key(before, key@) is None);
    let mut values: Vec<V> = Vec::new();
    values.push(v);
    assert(values.deep_view() =~= seq![v.deep_view()]);
    groups.push((key, values));
    assert(groups_view(groups@) =~= before.push((key@, seq![v.deep_view()])));
}

} // verus!
