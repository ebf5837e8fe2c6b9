//! The store: a flat table from string keys to byte payloads.
use vstd::prelude::*;
use vstd::hash_map::StringHashMap;

verus! {

/// The contents of a store, as a map from keys to payloads.
pub type Contents = Map<Seq<char>, Seq<u8>>;

/// What a lookup of `key` in `m` yields: the payload, or nothing.
pub open spec fn lookup(m: Contents, key: Seq<char>) -> Option<Seq<u8>> {
    if m.contains_key(key) {
        Some(m[key])
    } else {
        None
    }
}

/// The single source of truth for state: keys are unique, each maps to the
/// payload of the most recent completed write.
pub struct Store {
    db: StringHashMap<Vec<u8>>,
}

impl View for Store {
    type V = Contents;

    closed spec fn view(&self) -> Contents {
        self.db@.map_values(|v: Vec<u8>| v@)
    }
}

impl Store {
    /// An empty store.
    pub fn new() -> (s: Store)
        ensures
            s@ == Contents::empty(),
    {
        let s = Store { db: StringHashMap::new() };
        assert(s@ =~= Contents::empty());
        s
    }

    /// The payload stored under `key`, if any.
    pub fn get(&self, key: &str) -> (r: Option<Vec<u8>>)
        ensures
            match r {
                Some(v) => lookup(self@, key@) == Some(v@),
                None => lookup(self@, key@) is None,
            },
    {
        match self.db.get(key) {
            Some(v) => {
                let out = v.clone();
                assert(out@ =~= v@);
                Some(out)
            },
            None => None,
        }
    }

    /// Inserts `value` under `key`, replacing any earlier payload.
    pub fn set(&mut self, key: String, value: Vec<u8>)
        ensures
            final(self)@ == old(self)@.insert(key@, value@),
    {
        self.db.insert(key, value);
        assert(self@ =~= old(self)@.insert(key@, value@));
    }

    /// Removes the entry for `key`; nothing happens when there is none.
    pub fn delete(&mut self, key: &str)
        ensures
            final(self)@ == old(self)@.remove(key@),
    {
        self.db.remove(key);
        assert(self@ =~= old(self)@.remove(key@));
    }

    /// Empties the whole store in one step.
    pub fn clear_all(&mut self)
        ensures
            final(self)@ == Contents::empty(),
    {
        self.db.clear();
        assert(self@ =~= Contents::empty());
    }

    /// The number of entries.
    pub fn len(&self) -> (n: usize)
        ensures
            n == self@.len(),
    {
        proof {
            assert(self@.dom() =~= self.db@.dom());
        }
        self.db.len()
    }
}

} // verus!
