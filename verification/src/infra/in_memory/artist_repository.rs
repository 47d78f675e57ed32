use vstd::prelude::*;
use crate::domain::artist::{Artist, RepositoryError};
use crate::domain::entity::Entity;
use crate::infra::in_memory::store::{lookup, EntityStore};
use crate::shared::vo::{Slug, UUID4};

verus! {

/// Whether some artist of `artists` has the slug `slug`.
pub open spec fn has_slug(artists: Map<Seq<char>, Artist>, slug: Seq<char>) -> bool {
    exists|k: Seq<char>| #[trigger] artists.contains_key(k) && artists[k].slug.0@ == slug
}

/// Once an artist is stored, some artist has its slug, so that
/// `find_by_slug` finds one.
pub proof fn stored_artist_has_its_slug(artists: Map<Seq<char>, Artist>, artist: Artist)
    ensures
        has_slug(artists.insert(artist.key(), artist), artist.slug.0@),
{
    let m = artists.insert(artist.key(), artist);
    assert(m.contains_key(artist.key()) && m[artist.key()].slug.0@ == artist.slug.0@);
}

/// Artists kept in memory, keyed by the text of their identifier.
pub struct InMemoryArtistRepository {
    artists: EntityStore<Artist>,
}

impl View for InMemoryArtistRepository {
    type V = Map<Seq<char>, Artist>;

    closed spec fn view(&self) -> Map<Seq<char>, Artist> {
        self.artists@
    }
}

impl InMemoryArtistRepository {
    pub closed spec fn wf(&self) -> bool {
        self.artists.wf()
    }

    /// An empty repository.
    pub fn new() -> (r: Self)
        ensures
            r.wf(),
            r@ == Map::<Seq<char>, Artist>::empty(),
    {
        InMemoryArtistRepository { artists: EntityStore::new() }
    }

    /// An artist whose slug is `slug`, if there is one.
    pub fn find_by_slug(&mut self, slug: &Slug) -> (r: Result<Option<Artist>, RepositoryError>)
        requires
            old(self).wf(),
        ensures
            final(self).wf(),
            final(self)@ == old(self)@,
            r matches Ok(found) && (found is Some <==> has_slug(old(self)@, slug.0@)) && (found matches Some(a)
                ==> old(self)@.contains_key(a.key()) && old(self)@[a.key()] == a && a.slug.0@ == slug.0@),
    {
        let values = self.artists.values();
        let mut i: usize = 0;
        while i < values.len()
            invariant
                self.wf(),
                i <= values@.len(),
                forall|j: int| 0 <= j < values@.len() ==> self@.contains_key(#[trigger] values@[j].key())
                    && self@[values@[j].key()] == values@[j],
                forall|k: Seq<char>| #[trigger] self@.contains_key(k) ==> exists|j: int|
                    0 <= j < values@.len() && #[trigger] values@[j].key() == k,
                forall|j: int| 0 <= j < i ==> (#[trigger] values@[j]).slug.0@ != slug.0@,
            decreases values@.len() - i,
        {
            if values[i].slug.0 == slug.0 {
                assert(self@.contains_key(values@[i as int].key()));
                return Ok(Some(values[i].clone()));
            }
            i = i + 1;
        }
        assert forall|k: Seq<char>| #[trigger] self@.contains_key(k) implies self@[k].slug.0@ != slug.0@ by {
            let j = choose|j: int| 0 <= j < values@.len() && #[trigger] values@[j].key() == k;
            assert(values@[j].slug.0@ != slug.0@);
        }
        Ok(None)
    }

    /// Stores a new artist and gives it back.
    pub fn create(&mut self, input: &Artist) -> (r: Result<Artist, RepositoryError>)
        requires
            old(self).wf(),
        ensures
            final(self).wf(),
            final(self)@ == old(self)@.insert(input.key(), *input),
            r == Ok::<Artist, RepositoryError>(*input),
    {
        self.artists.put(input.clone());
        Ok(input.clone())
    }

    /// Stores an artist in place of the one with the same identifier and gives
    /// it back.
    pub fn update(&mut self, input: &Artist) -> (r: Result<Artist, RepositoryError>)
        requires
            old(self).wf(),
        ensures
            final(self).wf(),
            final(self)@ == old(self)@.insert(input.key(), *input),
            r == Ok::<Artist, RepositoryError>(*input),
    {
        self.artists.put(input.clone());
        Ok(input.clone())
    }

    /// The artist with identifier `id`, if there is one.
    pub fn find_by_id(&mut self, id: &UUID4) -> (r: Result<Option<Artist>, RepositoryError>)
        requires
            old(self).wf(),
        ensures
            final(self).wf(),
            final(self)@ == old(self)@,
            r == Ok::<Option<Artist>, RepositoryError>(lookup(old(self)@, id.0@)),
    {
        Ok(self.artists.get(&id.0))
    }

    /// Drops the artist with identifier `id`, if there is one.
    pub fn delete_by_id(&mut self, id: &UUID4) -> (r: Result<(), RepositoryError>)
        requires
            old(self).wf(),
        ensures
            final(self).wf(),
            final(self)@ == old(self)@.remove(id.0@),
            r is Ok,
    {
        self.artists.remove(&id.0);
        Ok(())
    }
}

} // verus!
