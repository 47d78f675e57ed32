use vstd::prelude::*;
use crate::domain::entity::Entity;

verus! {

/// What a lookup by identifier gives back of a store's contents.
pub open spec fn lookup<V>(contents: Map<Seq<char>, V>, key: Seq<char>) -> Option<V> {
    if contents.contains_key(key) {
        Some(contents[key])
    } else {
        None
    }
}

/// A lookup right after a write gives back what was written, and lookups of
/// other identifiers are unchanged.
pub proof fn lookup_after_put<V>(contents: Map<Seq<char>, V>, key: Seq<char>, value: V, other: Seq<char>)
    ensures
        lookup(contents.insert(key, value), key) == Some(value),
        other != key ==> lookup(contents.insert(key, value), other) == lookup(contents, other),
{
}

/// A lookup right after a removal finds nothing, and lookups of other
/// identifiers are unchanged.
pub proof fn lookup_after_remove<V>(contents: Map<Seq<char>, V>, key: Seq<char>, other: Seq<char>)
    ensures
        lookup(contents.remove(key), key) is None,
        other != key ==> lookup(contents.remove(key), other) == lookup(contents, other),
{
}

/// Writing the same entity twice leaves the contents as one write does.
pub proof fn put_is_idempotent<V>(contents: Map<Seq<char>, V>, key: Seq<char>, value: V)
    ensures
        contents.insert(key, value).insert(key, value) == contents.insert(key, value),
{
    assert(contents.insert(key, value).insert(key, value) =~= contents.insert(key, value));
}

/// Entities kept in memory, at most one for each identifier.
pub struct EntityStore<E: Entity> {
    items: Vec<E>,
    contents: Ghost<Map<Seq<char>, E::V>>,
}

impl<E: Entity> View for EntityStore<E> {
    type V = Map<Seq<char>, E::V>;

    closed spec fn view(&self) -> Map<Seq<char>, E::V> {
        self.contents@
    }
}

impl<E: Entity> EntityStore<E> {
    /// The items are the contents, each identifier at most once.
    pub closed spec fn wf(&self) -> bool {
        &&& forall|i: int, j: int|
            0 <= i < j < self.items@.len() ==> #[trigger] self.items@[i].key()
                != #[trigger] self.items@[j].key()
        &&& forall|i: int|
            0 <= i < self.items@.len() ==> self.contents@.contains_key(
                #[trigger] self.items@[i].key(),
            ) && self.contents@[self.items@[i].key()] == self.items@[i]@
        &&& forall|k: Seq<char>|
            #[trigger] self.contents@.contains_key(k) ==> exists|i: int|
                0 <= i < self.items@.len() && #[trigger] self.items@[i].key() == k
    }

    /// An empty store.
    pub fn new() -> (r: Self)
        ensures
            r.wf(),
            r@ == Map::<Seq<char>, E::V>::empty(),
    {
        EntityStore { items: Vec::new(), contents: Ghost(Map::empty()) }
    }

    /// Where the entity with identifier `key` stands, if it is there.
    fn position(&self, key: &String) -> (r: Option<usize>)
        requires
            self.wf(),
        ensures
            r matches Some(i) ==> i < self.items@.len() && self.items@[i as int].key() == key@,
            r is None ==> !self@.contains_key(key@),
    {
        let mut i: usize = 0;
        while i < self.items.len()
            invariant
                self.wf(),
                i <= self.items@.len(),
                forall|j: int| 0 <= j < i ==> #[trigger] self.items@[j].key() != key@,
            decreases self.items@.len() - i,
        {
            if *self.items[i].id_text() == *key {
                return Some(i);
            }
            i = i + 1;
        }
        None
    }

    /// A copy of the entity with identifier `key`, if there is one.
    pub fn get(&self, key: &String) -> (r: Option<E>)
        requires
            self.wf(),
        ensures
            r is Some <==> self@.contains_key(key@),
            r matches Some(e) ==> e@ == self@[key@] && e.key() == key@,
    {
        match self.position(key) {
            Some(i) => Some(self.items[i].duplicate()),
            None => None,
        }
    }

    /// Stores `entity`, in place of the one with the same identifier if there
    /// is one.
    pub fn put(&mut self, entity: E)
        requires
            old(self).wf(),
        ensures
            final(self).wf(),
            final(self)@ == old(self)@.insert(entity.key(), entity@),
    {
        let ghost k = entity.key();
        let ghost v = entity@;
        let key = entity.id_text().clone();
        match self.position(&key) {
            Some(i) => {
                self.items.set(i, entity);
                proof {
                    self.contents@ = self.contents@.insert(k, v);
                }
                assert forall|k2: Seq<char>| #[trigger] self.contents@.contains_key(k2) implies exists|j: int|
                    0 <= j < self.items@.len() && #[trigger] self.items@[j].key() == k2 by {
                    if k2 != k {
                        let j = choose|j: int| 0 <= j < old(self).items@.len() && #[trigger] old(self).items@[j].key() == k2;
                        assert(self.items@[j].key() == k2);
                    } else {
                        assert(self.items@[i as int].key() == k2);
                    }
                }
            },
            None => {
                self.items.push(entity);
                proof {
                    self.contents@ = self.contents@.insert(k, v);
                }
                assert forall|k2: Seq<char>| #[trigger] self.contents@.contains_key(k2) implies exists|j: int|
                    0 <= j < self.items@.len() && #[trigger] self.items@[j].key() == k2 by {
                    if k2 != k {
                        let j = choose|j: int| 0 <= j < old(self).items@.len() && #[trigger] old(self).items@[j].key() == k2;
                        assert(self.items@[j].key() == k2);
                    } else {
                        assert(self.items@[self.items@.len() - 1].key() == k2);
                    }
                }
            },
        }
    }

    /// Drops the entity with identifier `key`, if there is one.
    pub fn remove(&mut self, key: &String)
        requires
            old(self).wf(),
        ensures
            final(self).wf(),
            final(self)@ == old(self)@.remove(key@),
    {
        match self.position(key) {
            Some(i) => {
                let _ = self.items.remove(i);
                proof {
                    self.contents@ = self.contents@.remove(key@);
                }
                assert forall|a: int, b: int|
                    0 <= a < b < self.items@.len() implies #[trigger] self.items@[a].key()
                        != #[trigger] self.items@[b].key() by {
                    let oa = if a < i { a } else { a + 1 };
                    let ob = if b < i { b } else { b + 1 };
                    assert(old(self).items@[oa].key() != old(self).items@[ob].key());
                }
                assert forall|a: int| 0 <= a < self.items@.len() implies self.contents@.contains_key(
                    #[trigger] self.items@[a].key(),
                ) && self.contents@[self.items@[a].key()] == self.items@[a]@ by {
                    let oa = if a < i { a } else { a + 1 };
                    assert(self.items@[a] == old(self).items@[oa]);
                    assert(old(self).items@[oa].key() != old(self).items@[i as int].key());
                }
                assert forall|k2: Seq<char>| #[trigger] self.contents@.contains_key(k2) implies exists|j: int|
                    0 <= j < self.items@.len() && #[trigger] self.items@[j].key() == k2 by {
                    let j = choose|j: int| 0 <= j < old(self).items@.len() && #[trigger] old(self).items@[j].key() == k2;
                    assert(j != i);
                    let nj = if j < i { j } else { j - 1 };
                    assert(self.items@[nj] == old(self).items@[j]);
                }
            },
            None => {
                assert(self.contents@.remove(key@) =~= self.contents@);
            },
        }
    }

    /// The stored entities, each identifier once, in no stated order.
    pub fn values(&self) -> (r: &Vec<E>)
        requires
            self.wf(),
        ensures
            forall|i: int|
                0 <= i < r@.len() ==> self@.contains_key(#[trigger] r@[i].key())
                    && self@[r@[i].key()] == r@[i]@,
            forall|k: Seq<char>|
                #[trigger] self@.contains_key(k) ==> exists|i: int|
                    0 <= i < r@.len() && #[trigger] r@[i].key() == k,
    {
        &self.items
    }
}

} // verus!
