//! Tables keyed by text: a list of `(key, value)` entries in which no key
//! occurs twice, read as a map from key to value.
use vstd::prelude::*;

verus! {

/// No key occurs twice.
pub open spec fn keys_unique<V>(e: Seq<(String, V)>) -> bool {
    forall|i: int, j: int|
        0 <= i < e.len() && 0 <= j < e.len() && i != j ==> #[trigger] e[i].0@ != #[trigger] e[j].0@
}

/// The map that the entries stand for; where a key occurs more than once,
/// the last entry wins.
pub open spec fn entry_map<V: DeepView>(e: Seq<(String, V)>) -> Map<Seq<char>, V::V>
    decreases e.len(),
{
    if e.len() == 0 {
        Map::empty()
    } else {
        entry_map(e.drop_last()).insert(e.last().0@, e.last().1.deep_view())
    }
}

pub proof fn lemma_entry_map_index<V: DeepView>(e: Seq<(String, V)>, i: int)
    requires
        keys_unique(e),
        0 <= i < e.len(),
    ensures
        entry_map(e).contains_key(e[i].0@),
        entry_map(e)[e[i].0@] == e[i].1.deep_view(),
    decreases e.len(),
{
    if i < e.len() - 1 {
        let p = e.drop_last();
        assert(p[i] == e[i]);
        assert(keys_unique(p)) by {
            assert forall|a: int, b: int|
                0 <= a < p.len() && 0 <= b < p.len() && a != b implies #[trigger] p[a].0@
                != #[trigger] p[b].0@ by {
                assert(p[a] == e[a] && p[b] == e[b]);
            }
        }
        lemma_entry_map_index(p, i);
        assert(e.last() == e[e.len() - 1]);
    }
}

pub proof fn lemma_entry_map_absent<V: DeepView>(e: Seq<(String, V)>, k: Seq<char>)
    requires
        forall|i: int| 0 <= i < e.len() ==> #[trigger] e[i].0@ != k,
    ensures
        !entry_map(e).contains_key(k),
    decreases e.len(),
{
    if e.len() > 0 {
        let p = e.drop_last();
        assert forall|i: int| 0 <= i < p.len() implies #[trigger] p[i].0@ != k by {
            assert(p[i] == e[i]);
        }
        lemma_entry_map_absent(p, k);
        assert(e.last() == e[e.len() - 1]);
    }
}

pub proof fn lemma_entry_map_update<V: DeepView>(e: Seq<(String, V)>, i: int, x: (String, V))
    requires
        keys_unique(e),
        0 <= i < e.len(),
        x.0@ == e[i].0@,
    ensures
        entry_map(e.update(i, x)) == entry_map(e).insert(x.0@, x.1.deep_view()),
    decreases e.len(),
{
    let u = e.update(i, x);
    if i == e.len() - 1 {
        assert(u.drop_last() =~= e.drop_last());
        let p = e.drop_last();
        assert forall|j: int| 0 <= j < p.len() implies #[trigger] p[j].0@ != x.0@ by {
            assert(p[j] == e[j]);
        }
        lemma_entry_map_absent(p, x.0@);
        assert(entry_map(e).insert(x.0@, x.1.deep_view()) =~= entry_map(p).insert(
            x.0@,
            x.1.deep_view(),
        ));
    } else {
        let p = e.drop_last();
        assert(u.drop_last() =~= p.update(i, x));
        assert(keys_unique(p)) by {
            assert forall|a: int, b: int|
                0 <= a < p.len() && 0 <= b < p.len() && a != b implies #[trigger] p[a].0@
                != #[trigger] p[b].0@ by {
                assert(p[a] == e[a] && p[b] == e[b]);
            }
        }
        assert(p[i] == e[i]);
        lemma_entry_map_update(p, i, x);
        assert(u.last() == e.last());
        assert(e.last() == e[e.len() - 1]);
        assert(e.last().0@ != x.0@);
        assert(entry_map(u) =~= entry_map(e).insert(x.0@, x.1.deep_view()));
    }
}

/// The position of the entry named `key`, if there is one.
pub fn find_entry<V: DeepView>(e: &Vec<(String, V)>, key: &String) -> (r: Option<usize>)
    ensures
        match r {
            Some(i) => i < e.len() && e@[i as int].0@ == key@ && forall|j: int|
                0 <= j < i ==> #[trigger] e@[j].0@ != key@,
            None => forall|j: int| 0 <= j < e.len() ==> #[trigger] e@[j].0@ != key@,
        },
{
    let mut i: usize = 0;
    while i < e.len()
        invariant
            0 <= i <= e.len(),
            forall|j: int| 0 <= j < i ==> #[trigger] e@[j].0@ != key@,
        decreases e.len() - i,
    {
        if e[i].0 == *key {
            return Some(i);
        }
        i = i + 1;
    }
    None
}

/// Puts `value` under `key`: over an entry with that key where there is one,
/// as a new last entry otherwise.
pub fn insert_entry<V: DeepView>(e: &mut Vec<(String, V)>, key: String, value: V)
    requires
        keys_unique(old(e)@),
    ensures
        keys_unique(final(e)@),
        entry_map(final(e)@) == entry_map(old(e)@).insert(key@, value.deep_view()),
{
    match find_entry(e, &key) {
        Some(i) => {
            let ghost k = key@;
            let ghost dv = value.deep_view();
            let ghost x = (key, value);
            proof {
                lemma_entry_map_update(e@, i as int, x);
            }
            e.set(i, (key, value));
            assert(e@ == old(e)@.update(i as int, x));
            assert(keys_unique(e@)) by {
                assert forall|a: int, b: int|
                    0 <= a < e@.len() && 0 <= b < e@.len() && a != b implies #[trigger] e@[a].0@
                    != #[trigger] e@[b].0@ by {
                    if a != i && b != i {
                        assert(e@[a] == old(e)@[a] && e@[b] == old(e)@[b]);
                    } else if a == i {
                        assert(e@[b] == old(e)@[b]);
                        assert(old(e)@[a].0@ != old(e)@[b].0@);
                    } else {
                        assert(e@[a] == old(e)@[a]);
                        assert(old(e)@[a].0@ != old(e)@[b].0@);
                    }
                }
            }
        },
        None => {
            let ghost x = (key, value);
            e.push((key, value));
            assert(e@.drop_last() =~= old(e)@);
            assert(e@.last() == x);
            assert(keys_unique(e@)) by {
                assert forall|a: int, b: int|
                    0 <= a < e@.len() && 0 <= b < e@.len() && a != b implies #[trigger] e@[a].0@
                    != #[trigger] e@[b].0@ by {
                    if a < old(e)@.len() && b < old(e)@.len() {
                        assert(e@[a] == old(e)@[a] && e@[b] == old(e)@[b]);
                    } else if a < old(e)@.len() {
                        assert(e@[a] == old(e)@[a]);
                    } else {
                        assert(e@[b] == old(e)@[b]);
                    }
                }
            }
        },
    }
}

} // verus!
