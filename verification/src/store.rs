use vstd::prelude::*;

verus! {

/// The mapping a key-value log denotes: later entries shadow earlier
/// ones for the same key.
pub open spec fn log_map<V>(entries: Seq<(String, V)>) -> Map<Seq<char>, V>
    decreases entries.len(),
{
    if entries.len() == 0 {
        Map::empty()
    } else {
        log_map(entries.drop_last()).insert(entries.last().0@, entries.last().1)
    }
}

/// The value a map holds under a key, if any.
pub open spec fn get_of<K, V>(m: Map<K, V>, k: K) -> Option<V> {
    if m.contains_key(k) {
        Some(m[k])
    } else {
        None
    }
}

/// One logical table of the contract's persistent storage: a key-value
/// store over string keys, modelled as the map its entries denote.
///
/// Writes append; the newest entry for a key wins, the way a
/// log-structured store commits each write as a new record.
pub struct Table<V> {
    entries: Vec<(String, V)>,
}

impl<V> View for Table<V> {
    type V = Map<Seq<char>, V>;

    closed spec fn view(&self) -> Map<Seq<char>, V> {
        log_map(self.entries@)
    }
}

impl<V> Table<V> {
    /// An empty table, holding no key.
    pub fn new() -> (r: Table<V>)
        ensures
            r@ == Map::<Seq<char>, V>::empty(),
    {
        let r = Table { entries: Vec::new() };
        proof {
            assert(r.entries@.len() == 0);
        }
        r
    }

    /// Persist a record under a key, replacing whatever the key held.
    pub fn put(&mut self, key: String, value: V)
        ensures
            final(self)@ == old(self)@.insert(key@, value),
    {
        let ghost before = self.entries@;
        self.entries.push((key, value));
        proof {
            assert(self.entries@.drop_last() =~= before);
        }
    }

    /// Read the record a key holds, if any.
    pub fn get(&self, key: &String) -> (r: Option<&V>)
        ensures
            match r {
                Some(v) => self@.contains_key(key@) && *v == self@[key@],
                None => !self@.contains_key(key@),
            },
    {
        let ghost whole = self.entries@;
        let mut i: usize = self.entries.len();
        proof {
            assert(whole.take(i as int) =~= whole);
        }
        while i > 0
            invariant
                i <= self.entries.len(),
                whole == self.entries@,
                get_of(log_map(whole.take(i as int)), key@) == get_of(self@, key@),
            decreases i,
        {
            i = i - 1;
            let entry = &self.entries[i];
            proof {
                assert(whole.take(i as int + 1).drop_last() =~= whole.take(i as int));
                assert(log_map(whole.take(i as int + 1)) == log_map(whole.take(i as int)).insert(
                    entry.0@,
                    entry.1,
                ));
            }
            if entry.0.eq(key) {
                return Some(&entry.1);
            }
        }
        proof {
            assert(whole.take(0) =~= Seq::<(String, V)>::empty());
            assert(!log_map(whole.take(0)).contains_key(key@));
        }
        None
    }
}

} // verus!
