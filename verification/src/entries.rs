//! Keyed entries: the list form of a string-keyed map.
//!
//! A record carries its custom attributes, and the registry its definitions,
//! as a list of `(key, value)` entries. The list stands for a map: where a key
//! occurs more than once, the entry nearest the end is the one that counts.
//!
//! Why a list and no hash map: these maps are walked (by the claims filter
//! and by whoever writes a document) and copied (with every record that
//! leaves the store). Verus knows nothing of a standard hash map whose keys
//! are strings, and the string-keyed map that vstd specifies can be neither
//! walked nor copied.

use crate::text::str_eq;
use vstd::prelude::*;

verus! {

/// One keyed value.
#[derive(Debug)]
pub struct Entry<V> {
    pub key: String,
    pub value: V,
}

/// The map that a sequence of pairs stands for; later pairs take precedence.
pub open spec fn pairs_map<T>(pairs: Seq<(Seq<char>, T)>) -> Map<Seq<char>, T>
    decreases pairs.len(),
{
    if pairs.len() == 0 {
        Map::empty()
    } else {
        pairs_map(pairs.drop_last()).insert(pairs.last().0, pairs.last().1)
    }
}

/// The pairs of views behind a list of entries, in order.
pub open spec fn entry_pairs<V: View>(entries: Seq<Entry<V>>) -> Seq<(Seq<char>, V::V)> {
    Seq::new(entries.len(), |i: int| (entries[i].key@, entries[i].value@))
}

/// The map that a list of entries stands for.
pub open spec fn entries_map<V: View>(entries: Seq<Entry<V>>) -> Map<Seq<char>, V::V> {
    pairs_map(entry_pairs(entries))
}

/// A key is in the map exactly when some pair carries it.
pub proof fn lemma_pairs_dom<T>(pairs: Seq<(Seq<char>, T)>, key: Seq<char>)
    ensures
        pairs_map(pairs).dom().contains(key) <==> exists|i: int|
            0 <= i < pairs.len() && (#[trigger] pairs[i]).0 == key,
    decreases pairs.len(),
{
    if pairs.len() > 0 {
        let front = pairs.drop_last();
        lemma_pairs_dom(front, key);
        if exists|i: int| 0 <= i < pairs.len() && (#[trigger] pairs[i]).0 == key {
            let i = choose|i: int| 0 <= i < pairs.len() && (#[trigger] pairs[i]).0 == key;
            if i < pairs.len() - 1 {
                assert(front[i].0 == key);
            }
        }
    }
}

/// The pair nearest the end among those with a key gives the key's value.
pub proof fn lemma_pairs_last_wins<T>(pairs: Seq<(Seq<char>, T)>, i: int)
    requires
        0 <= i < pairs.len(),
        forall|j: int| i < j < pairs.len() ==> (#[trigger] pairs[j]).0 != pairs[i].0,
    ensures
        pairs_map(pairs).dom().contains(pairs[i].0),
        pairs_map(pairs)[pairs[i].0] == pairs[i].1,
    decreases pairs.len(),
{
    if i < pairs.len() - 1 {
        let front = pairs.drop_last();
        lemma_pairs_last_wins(front, i);
    }
}

/// Appending a pair inserts it into the map.
pub proof fn lemma_pairs_push<T>(pairs: Seq<(Seq<char>, T)>, key: Seq<char>, value: T)
    ensures
        pairs_map(pairs.push((key, value))) == pairs_map(pairs).insert(key, value),
{
    assert(pairs.push((key, value)).drop_last() =~= pairs);
}

/// Appending an entry inserts it into the map of the list.
pub proof fn lemma_entries_push<V: View>(entries: Seq<Entry<V>>, entry: Entry<V>)
    ensures
        entries_map(entries.push(entry)) == entries_map(entries).insert(entry.key@, entry.value@),
{
    assert(entry_pairs(entries.push(entry)) =~= entry_pairs(entries).push(
        (entry.key@, entry.value@),
    ));
    lemma_pairs_push(entry_pairs(entries), entry.key@, entry.value@);
}

/// The value that the list gives to `key`, if any.
pub fn lookup<'a, V: View>(entries: &'a Vec<Entry<V>>, key: &str) -> (found: Option<&'a V>)
    ensures
        found.is_some() == entries_map(entries@).dom().contains(key@),
        found.is_some() ==> found.unwrap()@ == entries_map(entries@)[key@],
{
    let mut i: usize = entries.len();
    while i > 0
        invariant
            i <= entries.len(),
            forall|j: int| i <= j < entries.len() ==> (#[trigger] entries[j]).key@ != key@,
        decreases i,
    {
        i -= 1;
        if str_eq(entries[i].key.as_str(), key) {
            proof {
                let pairs = entry_pairs(entries@);
                lemma_pairs_last_wins(pairs, i as int);
            }
            return Some(&entries[i].value);
        }
    }
    proof {
        let pairs = entry_pairs(entries@);
        lemma_pairs_dom(pairs, key@);
    }
    None
}

/// Taking out a pair that carries `key` changes the map at `key` only.
pub proof fn lemma_pairs_remove_at<T>(pairs: Seq<(Seq<char>, T)>, i: int)
    requires
        0 <= i < pairs.len(),
    ensures
        pairs_map(pairs.remove(i)).remove(pairs[i].0) == pairs_map(pairs).remove(pairs[i].0),
    decreases pairs.len(),
{
    let key = pairs[i].0;
    let front = pairs.drop_last();
    if i == pairs.len() - 1 {
    } else {
        lemma_pairs_remove_at(front, i);
        assert(pairs.remove(i).drop_last() =~= front.remove(i));
        assert(pairs_map(pairs.remove(i)).remove(key) =~= pairs_map(front.remove(i)).remove(
            key,
        ).insert(pairs.last().0, pairs.last().1).remove(key));
    }
}

/// Takes every entry with `key` out of the list: the map loses `key` and
/// nothing else. Says whether the key was there.
pub fn remove_key<V: View>(entries: &mut Vec<Entry<V>>, key: &str) -> (removed: bool)
    ensures
        entries_map(final(entries)@) == entries_map(old(entries)@).remove(key@),
        removed == entries_map(old(entries)@).dom().contains(key@),
{
    let mut removed = false;
    let mut i: usize = 0;
    while i < entries.len()
        invariant
            i <= entries.len(),
            forall|j: int| 0 <= j < i ==> (#[trigger] entries[j]).key@ != key@,
            entries_map(entries@).remove(key@) == entries_map(old(entries)@).remove(key@),
            removed ==> entries_map(old(entries)@).dom().contains(key@),
            !removed ==> entries_map(entries@) == entries_map(old(entries)@),
        decreases entries.len() - i,
    {
        if str_eq(entries[i].key.as_str(), key) {
            proof {
                let pairs = entry_pairs(entries@);
                lemma_pairs_remove_at(pairs, i as int);
                assert(entry_pairs(entries@.remove(i as int)) =~= pairs.remove(i as int));
                lemma_pairs_dom(pairs, key@);
            }
            entries.remove(i);
            removed = true;
        } else {
            i += 1;
        }
    }
    proof {
        let pairs = entry_pairs(entries@);
        lemma_pairs_dom(pairs, key@);
    }
    removed
}

/// Gives `key` the value `value`: the map gains or replaces that one pair.
pub fn put<V: View>(entries: &mut Vec<Entry<V>>, key: String, value: V)
    ensures
        entries_map(final(entries)@) == entries_map(old(entries)@).insert(key@, value@),
{
    let _ = remove_key(entries, key.as_str());
    let entry = Entry { key, value };
    proof {
        lemma_entries_push(entries@, entry);
    }
    entries.push(entry);
}

} // verus!
