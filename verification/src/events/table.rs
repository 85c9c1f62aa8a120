//! A table of values filed under hardware addresses.

use crate::ieee802_11::util::MacAddress;
use std::collections::HashMap;
use vstd::prelude::*;

verus! {

broadcast use vstd::std_specs::hash::group_hash_axioms;

/// What is known of each of a set of addresses. Its model is a map from
/// addresses to values; it is kept as a hash map under the numbers of the
/// addresses.
pub struct MacTable<V> {
    map: HashMap<u64, V>,
}

impl<V> View for MacTable<V> {
    type V = Map<MacAddress, V>;

    closed spec fn view(&self) -> Map<MacAddress, V> {
        Map::new(
            |mac: MacAddress| self.map@.contains_key(mac.spec_to_u64()),
            |mac: MacAddress| self.map@[mac.spec_to_u64()],
        )
    }
}

impl<V> MacTable<V> {
    /// A table that knows of no address.
    pub fn new() -> (table: Self)
        ensures
            table@ == Map::<MacAddress, V>::empty(),
    {
        let table = MacTable { map: HashMap::new() };
        assert(table@ =~= Map::<MacAddress, V>::empty());
        table
    }

    /// Whether the table holds a value for `mac`.
    pub fn contains_key(&self, mac: &MacAddress) -> (found: bool)
        ensures
            found == self@.contains_key(*mac),
    {
        let key = mac.to_u64();
        self.map.contains_key(&key)
    }

    /// The value that the table holds for `mac`.
    pub fn get(&self, mac: &MacAddress) -> (value: Option<&V>)
        ensures
            match value {
                Some(v) => self@.contains_key(*mac) && *v == self@[*mac],
                None => !self@.contains_key(*mac),
            },
    {
        let key = mac.to_u64();
        self.map.get(&key)
    }

    /// Files `value` under `mac` and hands back what was filed there before.
    pub fn insert(&mut self, mac: MacAddress, value: V) -> (previous: Option<V>)
        ensures
            final(self)@ == old(self)@.insert(mac, value),
            match previous {
                Some(v) => old(self)@.contains_key(mac) && v == old(self)@[mac],
                None => !old(self)@.contains_key(mac),
            },
    {
        let key = mac.to_u64();
        let previous = self.map.insert(key, value);
        proof {
            assert forall|other: MacAddress| other.spec_to_u64() == key implies other == mac by {
                other.lemma_number_injective(mac);
            }
            assert(self@ =~= old(self)@.insert(mac, value));
        }
        previous
    }

    /// Takes out what is filed under `mac` and hands it back.
    pub fn remove(&mut self, mac: &MacAddress) -> (previous: Option<V>)
        ensures
            final(self)@ == old(self)@.remove(*mac),
            match previous {
                Some(v) => old(self)@.contains_key(*mac) && v == old(self)@[*mac],
                None => !old(self)@.contains_key(*mac),
            },
    {
        let key = mac.to_u64();
        let previous = self.map.remove(&key);
        proof {
            assert forall|other: MacAddress| other.spec_to_u64() == key implies other == *mac by {
                other.lemma_number_injective(*mac);
            }
            assert(self@ =~= old(self)@.remove(*mac));
        }
        previous
    }
}

} // verus!
