use vstd::prelude::*;
use crate::domain::entity::Entity;
use crate::domain::genre::{Error, Genre};
use crate::infra::in_memory::store::{lookup, EntityStore};
use crate::shared::vo::UUID4;

verus! {

/// Genres kept in memory, keyed by the text of their identifier.
pub struct InMemoryGenreRepository {
    genres: EntityStore<Genre>,
}

impl View for InMemoryGenreRepository {
    type V = Map<Seq<char>, Genre>;

    closed spec fn view(&self) -> Map<Seq<char>, Genre> {
        self.genres@
    }
}

impl InMemoryGenreRepository {
    pub closed spec fn wf(&self) -> bool {
        self.genres.wf()
    }

    /// An empty repository.
    pub fn new() -> (r: Self)
        ensures
            r.wf(),
            r@ == Map::<Seq<char>, Genre>::empty(),
    {
        InMemoryGenreRepository { genres: EntityStore::new() }
    }

    /// The genre with identifier `id`, if there is one.
    pub fn find_by_id(&mut self, id: &UUID4) -> (r: Result<Option<Genre>, Error>)
        requires
            old(self).wf(),
        ensures
            final(self).wf(),
            final(self)@ == old(self)@,
            r == Ok::<Option<Genre>, Error>(lookup(old(self)@, id.0@)),
    {
        Ok(self.genres.get(&id.0))
    }

    /// Stores a new genre.
    pub fn create(&mut self, genre: &Genre) -> (r: Result<(), Error>)
        requires
            old(self).wf(),
        ensures
            final(self).wf(),
            final(self)@ == old(self)@.insert(genre.key(), *genre),
            r is Ok,
    {
        self.genres.put(genre.clone());
        Ok(())
    }

    /// Stores a genre in place of the one with the same identifier.
    pub fn update(&mut self, genre: &Genre) -> (r: Result<(), Error>)
        requires
            old(self).wf(),
        ensures
            final(self).wf(),
            final(self)@ == old(self)@.insert(genre.key(), *genre),
            r is Ok,
    {
        self.genres.put(genre.clone());
        Ok(())
    }

    /// Drops the genre with identifier `id`, if there is one.
    pub fn delete_by_id(&mut self, id: &UUID4) -> (r: Result<(), Error>)
        requires
            old(self).wf(),
        ensures
            final(self).wf(),
            final(self)@ == old(self)@.remove(id.0@),
            r is Ok,
    {
        self.genres.remove(&id.0);
        Ok(())
    }
}

} // verus!
