use vstd::prelude::*;
use crate::domain::album::{Album, AlbumAggregate};
use crate::infra::actix::artist::presenter::{artist_presenter_of, ArtistPresenter};
use crate::shared::vo::{Date, Slug, UUID4};

verus! {

/// What an answer shows of an album.
#[derive(Debug, PartialEq, Eq)]
pub struct AlbumPresenter {
    pub id: UUID4,
    pub name: String,
    pub slug: Slug,
    pub cover: Option<String>,
    pub parental_rating: u8,
    pub release_date: Option<Date>,
    pub created_at: i64,
    pub updated_at: i64,
}

/// What an answer shows of `album`.
pub open spec fn album_presenter_of(album: Album) -> AlbumPresenter {
    AlbumPresenter {
        id: album.id,
        name: album.name,
        slug: album.slug,
        cover: album.cover,
        parental_rating: album.parental_rating,
        release_date: album.release_date,
        created_at: album.created_at,
        updated_at: album.updated_at,
    }
}

impl From<Album> for AlbumPresenter {
    fn from(value: Album) -> (r: AlbumPresenter)
        ensures
            r.id == value.id,
            r.name == value.name,
            r.slug == value.slug,
            r.cover == value.cover,
            r.parental_rating == value.parental_rating,
            r.release_date == value.release_date,
            r.created_at == value.created_at,
            r.updated_at == value.updated_at,
    {
        AlbumPresenter {
            id: value.id,
            name: value.name,
            cover: value.cover,
            release_date: value.release_date,
            parental_rating: value.parental_rating,
            slug: value.slug,
            created_at: value.created_at,
            updated_at: value.updated_at,
        }
    }
}

impl vstd::std_specs::convert::FromSpecImpl<Album> for AlbumPresenter {
    open spec fn obeys_from_spec() -> bool {
        true
    }

    open spec fn from_spec(v: Album) -> AlbumPresenter {
        album_presenter_of(v)
    }
}

/// What an answer shows of an album and the artists it is credited to.
#[derive(Debug, PartialEq, Eq)]
pub struct AlbumAggregatePresenter {
    pub id: UUID4,
    pub name: String,
    pub slug: Slug,
    pub cover: Option<String>,
    pub parental_rating: u8,
    pub release_date: Option<Date>,
    pub artists: Vec<ArtistPresenter>,
    pub created_at: i64,
    pub updated_at: i64,
}

impl AlbumAggregatePresenter {
    /// What an answer shows of an album and its artists, each artist
    /// presented, in order.
    pub fn from(value: AlbumAggregate) -> (r: AlbumAggregatePresenter)
        ensures
            r.id == value.album.id,
            r.name == value.album.name,
            r.slug == value.album.slug,
            r.cover == value.album.cover,
            r.parental_rating == value.album.parental_rating,
            r.release_date == value.album.release_date,
            r.created_at == value.album.created_at,
            r.updated_at == value.album.updated_at,
            r.artists@.len() == value.artists@.len(),
            forall|i: int|
                0 <= i < r.artists@.len() ==> #[trigger] r.artists@[i] == artist_presenter_of(
                    value.artists@[i],
                ),
    {
        let (album, artists) = value.into_parts();
        AlbumAggregatePresenter {
            id: album.id,
            name: album.name,
            cover: album.cover,
            release_date: album.release_date,
            parental_rating: album.parental_rating,
            slug: album.slug,
            artists: ArtistPresenter::all(&artists),
            created_at: album.created_at,
            updated_at: album.updated_at,
        }
    }
}

} // verus!
