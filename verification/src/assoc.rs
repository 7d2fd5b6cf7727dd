//! Tables keyed by text, kept as a run of keys beside a run of values in
//! which a later key overrides an earlier equal one.

use crate::text::texts;
use vstd::prelude::*;
use vstd::string::*;

verus! {

/// The table that a run of keys and the run of their values stand for.
pub open spec fn assoc<V>(keys: Seq<Seq<char>>, values: Seq<V>) -> Map<Seq<char>, V>
    recommends
        keys.len() == values.len(),
    decreases keys.len(),
{
    if keys.len() == 0 {
        Map::empty()
    } else {
        assoc(keys.drop_last(), values.drop_last()).insert(keys.last(), values.last())
    }
}

/// Whether `i` is the last place at which `keys` holds `key`.
pub open spec fn last_at(keys: Seq<Seq<char>>, key: Seq<char>, i: int) -> bool {
    &&& 0 <= i < keys.len()
    &&& keys[i] == key
    &&& forall|j: int| i < j < keys.len() ==> keys[j] != key
}

/// Whether `keys` does not hold `key`.
pub open spec fn absent(keys: Seq<Seq<char>>, key: Seq<char>) -> bool {
    forall|j: int| 0 <= j < keys.len() ==> keys[j] != key
}

/// A key that the run does not hold is not in the table.
pub proof fn lemma_assoc_absent<V>(keys: Seq<Seq<char>>, values: Seq<V>, key: Seq<char>)
    requires
        keys.len() == values.len(),
        absent(keys, key),
    ensures
        !assoc(keys, values).contains_key(key),
    decreases keys.len(),
{
    if keys.len() > 0 {
        assert(keys.last() == keys[keys.len() - 1]);
        assert forall|j: int| 0 <= j < keys.drop_last().len() implies keys.drop_last()[j]
            != key by {
            assert(keys.drop_last()[j] == keys[j]);
        }
        lemma_assoc_absent(keys.drop_last(), values.drop_last(), key);
    }
}

/// The table gives a key the value that stands at its last place.
pub proof fn lemma_assoc_found<V>(keys: Seq<Seq<char>>, values: Seq<V>, key: Seq<char>, i: int)
    requires
        keys.len() == values.len(),
        last_at(keys, key, i),
    ensures
        assoc(keys, values).contains_key(key),
        assoc(keys, values)[key] == values[i],
    decreases keys.len(),
{
    if i < keys.len() - 1 {
        assert(keys.last() == keys[keys.len() - 1]);
        assert forall|j: int| i < j < keys.drop_last().len() implies keys.drop_last()[j]
            != key by {
            assert(keys.drop_last()[j] == keys[j]);
        }
        assert(keys.drop_last()[i] == keys[i]);
        assert(values.drop_last()[i] == values[i]);
        lemma_assoc_found(keys.drop_last(), values.drop_last(), key, i);
    }
}

/// A new value at the last place of a key is a new value for the key, and
/// leaves every other key as it was.
pub proof fn lemma_assoc_update<V>(
    keys: Seq<Seq<char>>,
    values: Seq<V>,
    key: Seq<char>,
    i: int,
    v: V,
)
    requires
        keys.len() == values.len(),
        last_at(keys, key, i),
    ensures
        assoc(keys, values.update(i, v)) == assoc(keys, values).insert(key, v),
    decreases keys.len(),
{
    let front = keys.drop_last();
    if i == keys.len() - 1 {
        assert(values.update(i, v).drop_last() =~= values.drop_last());
        assert(assoc(keys, values.update(i, v)) =~= assoc(keys, values).insert(key, v));
    } else {
        assert(keys.last() == keys[keys.len() - 1]);
        assert forall|j: int| i < j < front.len() implies front[j] != key by {
            assert(front[j] == keys[j]);
        }
        assert(front[i] == keys[i]);
        lemma_assoc_update(front, values.drop_last(), key, i, v);
        assert(values.update(i, v).drop_last() =~= values.drop_last().update(i, v));
        assert(values.update(i, v).last() == values.last());
        assert(assoc(keys, values.update(i, v)) =~= assoc(keys, values).insert(key, v));
    }
}

/// A key and a value at the end of the runs are a new value for the key.
pub proof fn lemma_assoc_push<V>(keys: Seq<Seq<char>>, values: Seq<V>, key: Seq<char>, v: V)
    requires
        keys.len() == values.len(),
    ensures
        assoc(keys.push(key), values.push(v)) == assoc(keys, values).insert(key, v),
{
    assert(keys.push(key).drop_last() =~= keys);
    assert(values.push(v).drop_last() =~= values);
}

/// Finds the last place at which `keys` holds `key`.
pub fn find_last(keys: &Vec<String>, key: &String) -> (place: Option<usize>)
    ensures
        match place {
            Some(i) => last_at(texts(keys@), key@, i as int),
            None => absent(texts(keys@), key@),
        },
{
    let ghost all = texts(keys@);
    let mut i: usize = keys.len();
    while i > 0
        invariant
            i <= keys.len(),
            all == texts(keys@),
            forall|j: int| i <= j < keys.len() ==> all[j] != key@,
        decreases i,
    {
        i = i - 1;
        if keys[i] == *key {
            proof {
                assert(all[i as int] == key@);
            }
            return Some(i);
        }
    }
    None
}

} // verus!
