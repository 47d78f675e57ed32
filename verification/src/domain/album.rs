use vstd::prelude::*;
use crate::domain::entity::Entity;
use crate::shared::copy::{copy_opt_slug, copy_opt_string};
use crate::domain::artist::Artist;
use crate::shared::vo::{Date, IdSet, Slug, UUID4};

verus! {

/// An album and the artists it is credited to. Times are seconds since the
/// Unix epoch; `album_type` is the textual name of the album's type.
#[derive(Debug, Default, PartialEq, Eq)]
pub struct Album {
    pub id: UUID4,
    pub name: String,
    pub album_type: String,
    pub slug: Slug,
    pub cover: Option<String>,
    pub parental_rating: u8,
    pub release_date: Option<Date>,
    pub artist_ids: IdSet,
    pub created_at: i64,
    pub updated_at: i64,
}

/// An album together with the artists it is credited to.
#[derive(Debug, Default, PartialEq, Eq)]
pub struct AlbumAggregate {
    pub album: Album,
    pub artists: Vec<Artist>,
}

impl AlbumAggregate {
    /// The album and its artists, apart.
    pub fn into_parts(self) -> (r: (Album, Vec<Artist>))
        ensures
            r.0 == self.album,
            r.1 == self.artists,
    {
        (self.album, self.artists)
    }
}

/// An album as a value: its artists as a sequence.
pub struct AlbumView {
    pub id: UUID4,
    pub name: String,
    pub album_type: String,
    pub slug: Slug,
    pub cover: Option<String>,
    pub parental_rating: u8,
    pub release_date: Option<Date>,
    pub artist_ids: Seq<UUID4>,
    pub created_at: i64,
    pub updated_at: i64,
}

impl View for Album {
    type V = AlbumView;

    open spec fn view(&self) -> AlbumView {
        AlbumView {
            id: self.id,
            name: self.name,
            album_type: self.album_type,
            slug: self.slug,
            cover: self.cover,
            parental_rating: self.parental_rating,
            release_date: self.release_date,
            artist_ids: self.artist_ids@,
            created_at: self.created_at,
            updated_at: self.updated_at,
        }
    }
}

impl Clone for Album {
    fn clone(&self) -> (r: Album)
        ensures
            r@ == self@,
    {
        let artist_ids = self.artist_ids.clone();
        Album {
            id: self.id.clone(),
            name: self.name.clone(),
            album_type: self.album_type.clone(),
            slug: self.slug.clone(),
            cover: copy_opt_string(&self.cover),
            parental_rating: self.parental_rating,
            release_date: self.release_date,
            artist_ids,
            created_at: self.created_at,
            updated_at: self.updated_at,
        }
    }
}

/// The fields of an album that a contribution sets; `None` leaves a field as
/// it is.
#[derive(Debug, Default, PartialEq, Eq)]
pub struct Changes {
    pub name: Option<String>,
    pub slug: Option<Slug>,
    pub cover: Option<Option<String>>,
    pub parental_rating: Option<u8>,
    pub artist_ids: Option<IdSet>,
}

/// The changes to an album as a value.
pub struct ChangesView {
    pub name: Option<String>,
    pub slug: Option<Slug>,
    pub cover: Option<Option<String>>,
    pub parental_rating: Option<u8>,
    pub artist_ids: Option<Seq<UUID4>>,
}

impl View for Changes {
    type V = ChangesView;

    open spec fn view(&self) -> ChangesView {
        ChangesView {
            name: self.name,
            slug: self.slug,
            cover: self.cover,
            parental_rating: self.parental_rating,
            artist_ids: match self.artist_ids {
                Some(ids) => Some(ids@),
                None => None,
            },
        }
    }
}

impl Clone for Changes {
    fn clone(&self) -> (r: Changes)
        ensures
            r@ == self@,
    {
        let artist_ids = match &self.artist_ids {
            Some(ids) => Some(ids.clone()),
            None => None,
        };
        Changes {
            name: copy_opt_string(&self.name),
            slug: copy_opt_slug(&self.slug),
            cover: match &self.cover {
                Some(c) => Some(copy_opt_string(c)),
                None => None,
            },
            parental_rating: self.parental_rating,
            artist_ids,
        }
    }
}

/// A change to an album that a user proposes.
#[derive(Debug, PartialEq, Eq)]
pub enum Contribution {
    Create(Album),
    Update { album: Album, changes: Changes },
    Delete(Album),
}

/// A change to an album as a value.
pub enum ContributionView {
    Create(AlbumView),
    Update { album: AlbumView, changes: ChangesView },
    Delete(AlbumView),
}

impl View for Contribution {
    type V = ContributionView;

    open spec fn view(&self) -> ContributionView {
        match self {
            Contribution::Create(a) => ContributionView::Create(a@),
            Contribution::Update { album, changes } => ContributionView::Update {
                album: album@,
                changes: changes@,
            },
            Contribution::Delete(a) => ContributionView::Delete(a@),
        }
    }
}

impl Clone for Contribution {
    fn clone(&self) -> (r: Contribution)
        ensures
            r@ == self@,
    {
        match self {
            Contribution::Create(a) => Contribution::Create(a.clone()),
            Contribution::Update { album, changes } => Contribution::Update {
                album: album.clone(),
                changes: changes.clone(),
            },
            Contribution::Delete(a) => Contribution::Delete(a.clone()),
        }
    }
}

/// Errors of an album repository.
#[derive(Debug, PartialEq, Eq)]
pub enum RepositoryError {
    DatabaseError(String),
}

/// Errors of applying an approved change to an album.
#[derive(Debug, PartialEq, Eq)]
pub enum ApplyChangesError {
    EntityIsNotAlbum,
    RepositoryError(RepositoryError),
}

/// Errors of contributing a change to an album.
#[derive(Debug, PartialEq, Eq)]
pub enum ContributeError {
    ActivityRepositoryError(crate::domain::activity::RepositoryError),
    AlbumNotFound,
    AlbumRepositoryError(RepositoryError),
}

/// Errors of looking an album up by its slug.
#[derive(Debug, PartialEq, Eq)]
pub enum FindBySlugError {
    AlbumNotFound,
    RepositoryError(RepositoryError),
}

/// Errors of listing albums.
#[derive(Debug, PartialEq, Eq)]
pub enum FindByError {
    RepositoryError(RepositoryError),
}

impl Entity for Album {
    open spec fn key(&self) -> Seq<char> {
        self.id.0@
    }

    fn id_text(&self) -> (r: &String) {
        &self.id.0
    }

    fn duplicate(&self) -> (r: Album) {
        self.clone()
    }
}

} // verus!
