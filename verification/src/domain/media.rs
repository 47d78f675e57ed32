use vstd::prelude::*;
use crate::shared::paged::RequestPageParams;
use crate::domain::artist::Artist;
use crate::domain::source::Source;
use crate::shared::vo::{Date, IdSet, Slug, UUID4};

verus! {

/// The filters and the page of a listing of media; each filter that is
/// `Some` must hold. `media_type` is the textual name of the media type.
#[derive(Debug, Default, PartialEq, Eq)]
pub struct FindByQuery {
    pub page: RequestPageParams,
    pub search: Option<String>,
    pub release_date: Option<Date>,
    pub min_release_date: Option<Date>,
    pub max_release_date: Option<Date>,
    pub parental_rating: Option<u8>,
    pub min_parental_rating: Option<u8>,
    pub max_parental_rating: Option<u8>,
    pub is_single: Option<bool>,
    pub media_type: Option<String>,
    pub slug: Option<Slug>,
    pub artist_ids: Option<IdSet>,
    pub composer_ids: Option<IdSet>,
    pub genre_ids: Option<IdSet>,
    pub album_ids: Option<IdSet>,
}

/// A song or other playable work. Times are seconds since the Unix epoch;
/// `media_type` is the textual name of its type.
#[derive(Debug, Default, PartialEq, Eq)]
pub struct Media {
    pub id: UUID4,
    pub name: String,
    pub media_type: String,
    pub slug: Slug,
    pub release_date: Option<Date>,
    pub cover: Option<String>,
    pub parental_rating: u8,
    pub genre_ids: IdSet,
    pub composer_ids: IdSet,
    pub interpreter_ids: IdSet,
    pub album_ids: IdSet,
    pub is_single: bool,
    pub created_at: i64,
    pub updated_at: i64,
}

/// A media with its composers, interpreters and sources.
#[derive(Debug, Default, PartialEq, Eq)]
pub struct MediaAggregate {
    pub media: Media,
    pub composers: Vec<Artist>,
    pub interpreters: Vec<Artist>,
    pub sources: Vec<Source>,
}

/// What a contribution that creates a media gives.
#[derive(Debug, Default, PartialEq, Eq)]
pub struct CreateMediaInput {
    pub name: String,
    pub slug: Option<Slug>,
    pub media_type: String,
    pub release_date: Option<Date>,
    pub cover: Option<String>,
    pub parental_rating: Option<u8>,
    pub genre_ids: Option<IdSet>,
    pub composer_ids: Option<IdSet>,
    pub interpreter_ids: IdSet,
    pub album_ids: IdSet,
    pub is_single: Option<bool>,
}

/// The fields of a media that a contribution sets; `None` leaves a field as
/// it is, and `Some(None)` for the cover removes it.
#[derive(Debug, Default, PartialEq, Eq)]
pub struct Changes {
    pub name: Option<String>,
    pub media_type: Option<String>,
    pub slug: Option<Slug>,
    pub release_date: Option<Date>,
    pub cover: Option<Option<String>>,
    pub genre_ids: Option<IdSet>,
    pub parental_rating: Option<u8>,
    pub composer_ids: Option<IdSet>,
    pub interpreter_ids: Option<IdSet>,
    pub album_ids: Option<IdSet>,
    pub is_single: Option<bool>,
}

/// Errors of a media repository.
#[derive(Debug, PartialEq, Eq)]
pub enum RepositoryError {
    DatabaseError(String),
}

/// Errors of applying an approved change to a media.
#[derive(Debug, PartialEq, Eq)]
pub enum ApplyChangesError {
    AlbumRepositoryError(crate::domain::album::RepositoryError),
    RepositoryError(RepositoryError),
}

/// Errors of contributing a change to a media.
#[derive(Debug, PartialEq, Eq)]
pub enum ContributeError {
    ActivityRepositoryError(crate::domain::activity::RepositoryError),
    MediaNotFound,
    MediaRepositoryError(RepositoryError),
}

} // verus!
