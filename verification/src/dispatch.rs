//! A user repository over a pluggable key-value storage backend. The
//! `Storage` trait fixes what every backend must guarantee, stated over a
//! mathematical map; a hash-map and an ordered-map backend implement it,
//! and the repository's rules (no duplicate adds, updates only of existing
//! users) are proved against the trait alone.

use vstd::prelude::*;

verus! {

broadcast use {vstd::laws_cmp::group_laws_cmp, vstd::std_specs::btree::group_btree_axioms};

/// A user record: identifier, email address, activation flag.
#[derive(Clone, Debug, PartialEq, Eq)]
pub struct User {
    pub id: u64,
    pub email: String,
    pub activated: bool,
}

impl User {
    /// A fresh, not yet activated user.
    pub fn new(id: u64, email: String) -> (r: Self)
        ensures
            r.id == id,
            r.email@ == email@,
            !r.activated,
    {
        Self { id, email, activated: false }
    }

    /// Marks the user as activated.
    pub fn activate(&mut self)
        ensures
            final(self).id == old(self).id,
            final(self).email == old(self).email,
            final(self).activated,
    {
        self.activated = true;
    }
}

/// A key-value storage backend, described as a mathematical map.
pub trait Storage<V> {
    /// The stored entries.
    spec fn spec_map(&self) -> Map<u64, V>;

    /// Stores `val` under `key`, replacing any earlier entry.
    fn set(&mut self, key: u64, val: V)
        ensures
            final(self).spec_map() == old(self).spec_map().insert(key, val),
    ;

    /// Looks up the entry under `key`.
    fn get(&self, key: &u64) -> (r: Option<&V>)
        ensures
            match r {
                Some(v) => self.spec_map().contains_key(*key) && *v == self.spec_map()[*key],
                None => !self.spec_map().contains_key(*key),
            },
    ;

    /// Removes and returns the entry under `key`, if any.
    fn remove(&mut self, key: &u64) -> (r: Option<V>)
        ensures
            match r {
                Some(v) => {
                    &&& old(self).spec_map().contains_key(*key)
                    &&& v == old(self).spec_map()[*key]
                    &&& final(self).spec_map() == old(self).spec_map().remove(*key)
                },
                None => {
                    &&& !old(self).spec_map().contains_key(*key)
                    &&& final(self).spec_map() == old(self).spec_map()
                },
            },
    ;
}

/// Hash-map backed storage: O(1) average-case operations.
#[verifier::reject_recursive_types(V)]
pub struct HashMapStorage<V> {
    map: vstd::hash_map::HashMapWithView<u64, V>,
}

impl<V> HashMapStorage<V> {
    pub fn new() -> (r: Self)
        ensures
            r.spec_map() == Map::<u64, V>::empty(),
    {
        Self { map: vstd::hash_map::HashMapWithView::new() }
    }

    pub fn with_capacity(capacity: usize) -> (r: Self)
        ensures
            r.spec_map() == Map::<u64, V>::empty(),
    {
        Self { map: vstd::hash_map::HashMapWithView::with_capacity(capacity) }
    }
}

impl<V> Storage<V> for HashMapStorage<V> {
    closed spec fn spec_map(&self) -> Map<u64, V> {
        self.map@
    }

    fn set(&mut self, key: u64, val: V) {
        self.map.insert(key, val);
    }

    fn get(&self, key: &u64) -> (r: Option<&V>) {
        self.map.get(key)
    }

    fn remove(&mut self, key: &u64) -> (r: Option<V>) {
        self.map.remove(key)
    }
}

/// Ordered-map backed storage: O(log n) operations, sorted keys.
pub struct BTreeMapStorage<V> {
    map: std::collections::BTreeMap<u64, V>,
}

impl<V> BTreeMapStorage<V> {
    pub fn new() -> (r: Self)
        ensures
            r.spec_map() == Map::<u64, V>::empty(),
    {
        Self { map: std::collections::BTreeMap::new() }
    }
}

impl<V> Storage<V> for BTreeMapStorage<V> {
    closed spec fn spec_map(&self) -> Map<u64, V> {
        self.map@
    }

    fn set(&mut self, key: u64, val: V) {
        self.map.insert(key, val);
    }

    fn get(&self, key: &u64) -> (r: Option<&V>) {
        self.map.get(key)
    }

    fn remove(&mut self, key: &u64) -> (r: Option<V>) {
        self.map.remove(key)
    }
}

/// How many keys in `0 .. n` the map holds.
pub open spec fn spec_count_below<V>(m: Map<u64, V>, n: int) -> nat
    decreases n,
{
    if n <= 0 {
        0
    } else {
        spec_count_below(m, n - 1) + if m.contains_key((n - 1) as u64) {
            1nat
        } else {
            0nat
        }
    }
}

/// A user repository over a storage backend chosen at compile time.
pub struct UserRepository<S> {
    storage: S,
}

impl<S: Storage<User>> UserRepository<S> {
    /// The stored users, keyed by their identifier.
    pub closed spec fn spec_users(&self) -> Map<u64, User> {
        self.storage.spec_map()
    }

    /// Wraps the given storage backend.
    pub fn new(storage: S) -> (r: Self)
        ensures
            r.spec_users() == storage.spec_map(),
    {
        Self { storage }
    }

    /// Adds a new user; refuses an identifier that is already present.
    pub fn add(&mut self, user: User) -> (r: Result<(), String>)
        ensures
            match r {
                Ok(()) => {
                    &&& !old(self).spec_users().contains_key(user.id)
                    &&& final(self).spec_users() == old(self).spec_users().insert(user.id, user)
                },
                Err(_) => {
                    &&& old(self).spec_users().contains_key(user.id)
                    &&& final(self).spec_users() == old(self).spec_users()
                },
            },
    {
        if self.storage.get(&user.id).is_some() {
            return Err("user with this id already exists".to_owned());
        }
        let id = user.id;
        self.storage.set(id, user);
        Ok(())
    }

    /// Looks a user up by identifier.
    pub fn get(&self, id: u64) -> (r: Option<&User>)
        ensures
            match r {
                Some(u) => self.spec_users().contains_key(id) && *u == self.spec_users()[id],
                None => !self.spec_users().contains_key(id),
            },
    {
        self.storage.get(&id)
    }

    /// Replaces an existing user; refuses an identifier that is absent.
    pub fn update(&mut self, user: User) -> (r: Result<(), String>)
        ensures
            match r {
                Ok(()) => {
                    &&& old(self).spec_users().contains_key(user.id)
                    &&& final(self).spec_users() == old(self).spec_users().insert(user.id, user)
                },
                Err(_) => {
                    &&& !old(self).spec_users().contains_key(user.id)
                    &&& final(self).spec_users() == old(self).spec_users()
                },
            },
    {
        if self.storage.get(&user.id).is_none() {
            return Err("user with this id not found".to_owned());
        }
        let id = user.id;
        self.storage.set(id, user);
        Ok(())
    }

    /// Removes a user by identifier, returning the removed record.
    pub fn remove(&mut self, id: u64) -> (r: Option<User>)
        ensures
            match r {
                Some(u) => {
                    &&& old(self).spec_users().contains_key(id)
                    &&& u == old(self).spec_users()[id]
                    &&& final(self).spec_users() == old(self).spec_users().remove(id)
                },
                None => {
                    &&& !old(self).spec_users().contains_key(id)
                    &&& final(self).spec_users() == old(self).spec_users()
                },
            },
    {
        self.storage.remove(&id)
    }

    /// Counts the stored users with identifiers below 1000 by probing each
    /// one; the storage interface offers no length of its own.
    pub fn count(&self) -> (r: usize)
        ensures
            r == spec_count_below(self.spec_users(), 1000),
    {
        let mut count: usize = 0;
        let mut id: u64 = 0;
        while id < 1000
            invariant
                id <= 1000,
                count == spec_count_below(self.spec_users(), id as int),
                count <= id,
            decreases 1000 - id,
        {
            if self.storage.get(&id).is_some() {
                count = count + 1;
            }
            id = id + 1;
        }
        count
    }
}

} // verus!
