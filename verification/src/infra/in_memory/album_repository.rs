use vstd::prelude::*;
use crate::domain::album::{Album, AlbumView, RepositoryError};
use crate::domain::entity::Entity;
use crate::infra::in_memory::store::{lookup, EntityStore};
use crate::shared::vo::UUID4;

verus! {

/// Albums kept in memory, keyed by the text of their identifier.
pub struct InMemoryAlbumRepository {
    albums: EntityStore<Album>,
}

impl View for InMemoryAlbumRepository {
    type V = Map<Seq<char>, AlbumView>;

    closed spec fn view(&self) -> Map<Seq<char>, AlbumView> {
        self.albums@
    }
}

/// The album, if any, as a value.
pub open spec fn album_view_of(found: Option<Album>) -> Option<AlbumView> {
    match found {
        Some(a) => Some(a@),
        None => None,
    }
}

impl InMemoryAlbumRepository {
    pub closed spec fn wf(&self) -> bool {
        self.albums.wf()
    }

    /// An empty repository.
    pub fn new() -> (r: Self)
        ensures
            r.wf(),
            r@ == Map::<Seq<char>, AlbumView>::empty(),
    {
        InMemoryAlbumRepository { albums: EntityStore::new() }
    }

    /// Stores a new album and gives back a copy of it.
    pub fn create(&mut self, input: &Album) -> (r: Result<Album, RepositoryError>)
        requires
            old(self).wf(),
        ensures
            final(self).wf(),
            final(self)@ == old(self)@.insert(input.key(), input@),
            r matches Ok(a) && a@ == input@,
    {
        self.albums.put(input.clone());
        Ok(input.clone())
    }

    /// The album with identifier `id`, if there is one.
    pub fn find_by_id(&mut self, id: &UUID4) -> (r: Result<Option<Album>, RepositoryError>)
        requires
            old(self).wf(),
        ensures
            final(self).wf(),
            final(self)@ == old(self)@,
            r matches Ok(found) && album_view_of(found) == lookup(old(self)@, id.0@),
    {
        Ok(self.albums.get(&id.0))
    }

    /// Stores an album in place of the one with the same identifier and gives
    /// back a copy of it.
    pub fn update(&mut self, album: &Album) -> (r: Result<Album, RepositoryError>)
        requires
            old(self).wf(),
        ensures
            final(self).wf(),
            final(self)@ == old(self)@.insert(album.key(), album@),
            r matches Ok(a) && a@ == album@,
    {
        self.albums.put(album.clone());
        Ok(album.clone())
    }

    /// Drops the album with identifier `id`, if there is one.
    pub fn delete_by_id(&mut self, id: &UUID4) -> (r: Result<(), RepositoryError>)
        requires
            old(self).wf(),
        ensures
            final(self).wf(),
            final(self)@ == old(self)@.remove(id.0@),
            r is Ok,
    {
        self.albums.remove(&id.0);
        Ok(())
    }
}

} // verus!
