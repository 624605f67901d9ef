//! A string-keyed table that remembers the order in which its keys came.
//!
//! Lookups go through a hash map; listings walk the keys in insertion order,
//! so that what a listing returns is a function of the table's history and
//! not of how a hash map happens to be laid out. The hash map is vstd's
//! string-keyed one, the form of the standard hash map that Verus can reason
//! about with strings for keys; it cannot be walked, hence the list of keys
//! beside it.

use crate::text::str_eq;
use vstd::hash_map::StringHashMap;
use vstd::prelude::*;

verus! {

#[verifier::reject_recursive_types(V)]
pub struct Table<V> {
    map: StringHashMap<V>,
    order: Vec<String>,
}

impl<V> Table<V> {
    /// The table as a map from key to value.
    pub closed spec fn view(&self) -> Map<Seq<char>, V> {
        self.map@
    }

    /// The keys, oldest first.
    pub closed spec fn keys(&self) -> Seq<Seq<char>> {
        self.order.deep_view()
    }

    /// The values, in the order of their keys.
    pub open spec fn values(&self) -> Seq<V> {
        Seq::new(self.keys().len(), |i: int| self@[self.keys()[i]])
    }

    /// Every key is listed once, and the listed keys are the keys of the map.
    pub open spec fn wf(&self) -> bool {
        &&& self.keys().no_duplicates()
        &&& forall|key: Seq<char>|
            #![trigger self@.dom().contains(key)]
            #![trigger self.keys().contains(key)]
            self@.dom().contains(key) <==> self.keys().contains(key)
    }

    pub fn new() -> (table: Table<V>)
        ensures
            table.wf(),
            table@ == Map::<Seq<char>, V>::empty(),
            table.keys() == Seq::<Seq<char>>::empty(),
    {
        let table = Table { map: StringHashMap::new(), order: Vec::new() };
        table
    }

    pub fn len(&self) -> (count: usize)
        ensures
            count == self.keys().len(),
    {
        self.order.len()
    }

    pub fn contains_key(&self, key: &str) -> (present: bool)
        ensures
            present == self@.dom().contains(key@),
    {
        self.map.contains_key(key)
    }

    pub fn get(&self, key: &str) -> (value: Option<&V>)
        ensures
            value.is_some() == self@.dom().contains(key@),
            value.is_some() ==> *value.unwrap() == self@[key@],
    {
        self.map.get(key)
    }

    /// The key at position `index` of the listing.
    pub fn key_at(&self, index: usize) -> (key: &str)
        requires
            index < self.keys().len(),
        ensures
            key@ == self.keys()[index as int],
    {
        self.order[index].as_str()
    }

    /// The value at position `index` of the listing.
    pub fn value_at(&self, index: usize) -> (value: &V)
        requires
            self.wf(),
            index < self.keys().len(),
        ensures
            *value == self.values()[index as int],
    {
        let key = self.order[index].as_str();
        assert(self.keys().contains(self.keys()[index as int]));
        self.map.get(key).unwrap()
    }

    /// Adds a key that the table does not hold yet, at the end of the listing.
    pub fn insert(&mut self, key: String, value: V)
        requires
            old(self).wf(),
            !old(self)@.dom().contains(key@),
        ensures
            final(self).wf(),
            final(self)@ == old(self)@.insert(key@, value),
            final(self).keys() == old(self).keys().push(key@),
    {
        let listed = key.clone();
        self.map.insert(key, value);
        self.order.push(listed);
        proof {
            let before = old(self).keys();
            let after = self.keys();
            assert(after =~= before.push(key@));
            assert forall|k: Seq<char>| self@.dom().contains(k) <==> after.contains(k) by {
                if before.contains(k) {
                    let i = choose|i: int| 0 <= i < before.len() && before[i] == k;
                    assert(after[i] == k);
                }
                if k == key@ {
                    assert(after[before.len() as int] == k);
                }
            }
        }
    }

    /// Gives a key that the table holds a new value; its place in the listing
    /// stays.
    pub fn replace(&mut self, key: &str, value: V)
        requires
            old(self).wf(),
            old(self)@.dom().contains(key@),
        ensures
            final(self).wf(),
            final(self)@ == old(self)@.insert(key@, value),
            final(self).keys() == old(self).keys(),
    {
        self.map.insert(key.to_owned(), value);
    }

    /// Takes a key out of the table. A key that is not there is no error.
    pub fn remove(&mut self, key: &str)
        requires
            old(self).wf(),
        ensures
            final(self).wf(),
            final(self)@ == old(self)@.remove(key@),
            !old(self)@.dom().contains(key@) ==> final(self).keys() == old(self).keys(),
            old(self)@.dom().contains(key@) ==> final(self).keys() == old(self).keys().remove(
                old(self).keys().index_of(key@),
            ),
    {
        if !self.map.contains_key(key) {
            return ;
        }
        let ghost before = self.keys();
        let mut i: usize = 0;
        while i < self.order.len() && !str_eq(self.order[i].as_str(), key)
            invariant
                i <= self.order.len(),
                before == self.order.deep_view(),
                forall|j: int| 0 <= j < i ==> before[j] != key@,
            decreases self.order.len() - i,
        {
            i += 1;
        }
        proof {
            assert(before.contains(key@));
            assert(before[i as int] == key@);
        }
        self.map.remove(key);
        self.order.remove(i);
        proof {
            let after = self.keys();
            assert(after =~= before.remove(i as int));
            assert forall|k: Seq<char>| self@.dom().contains(k) <==> after.contains(k) by {
                if self@.dom().contains(k) {
                    let at = choose|at: int| 0 <= at < before.len() && before[at] == k;
                    if at < i {
                        assert(after[at] == k);
                    } else {
                        assert(after[at - 1] == k);
                    }
                }
            }
        }
    }
}

} // verus!
