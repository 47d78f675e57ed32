use vstd::prelude::*;
use crate::domain::media::{Changes, CreateMediaInput, Media};
use crate::shared::paged::RequestPageParams;
use crate::shared::vo::{Date, IdSet, Slug, UUID4};

verus! {

/// A request to create a media.
#[derive(Debug, Default, PartialEq, Eq)]
pub struct CreateMediaDTO {
    pub name: String,
    pub slug: Option<Slug>,
    pub media_type: String,
    pub release_date: Option<Date>,
    pub cover: Option<String>,
    pub parental_rating: Option<u8>,
    pub genre_ids: Option<IdSet>,
    pub composer_ids: Option<IdSet>,
    pub interpreter_ids: IdSet,
    pub album_ids: IdSet,
    pub is_single: Option<bool>,
}

/// A request to change a media; `None` leaves a field as it is.
#[derive(Debug, Default, PartialEq, Eq)]
pub struct UpdateMediaDto {
    pub name: Option<String>,
    pub media_type: Option<String>,
    pub slug: Option<Slug>,
    pub release_date: Option<Date>,
    pub cover: Option<Option<String>>,
    pub genre_ids: Option<IdSet>,
    pub parental_rating: Option<u8>,
    pub composer_ids: Option<IdSet>,
    pub interpreter_ids: Option<IdSet>,
    pub album_ids: Option<IdSet>,
    pub is_single: Option<bool>,
}

impl From<CreateMediaDTO> for CreateMediaInput {
    fn from(value: CreateMediaDTO) -> (r: CreateMediaInput)
        ensures
            r.name == value.name,
            r.slug == value.slug,
            r.media_type == value.media_type,
            r.release_date == value.release_date,
            r.cover == value.cover,
            r.parental_rating == value.parental_rating,
            r.genre_ids == value.genre_ids,
            r.composer_ids == value.composer_ids,
            r.interpreter_ids == value.interpreter_ids,
            r.album_ids == value.album_ids,
            r.is_single == value.is_single,
    {
        CreateMediaInput {
            name: value.name,
            slug: value.slug,
            media_type: value.media_type,
            release_date: value.release_date,
            cover: value.cover,
            parental_rating: value.parental_rating,
            genre_ids: value.genre_ids,
            composer_ids: value.composer_ids,
            interpreter_ids: value.interpreter_ids,
            album_ids: value.album_ids,
            is_single: value.is_single,
        }
    }
}

impl vstd::std_specs::convert::FromSpecImpl<CreateMediaDTO> for CreateMediaInput {
    open spec fn obeys_from_spec() -> bool {
        true
    }

    open spec fn from_spec(v: CreateMediaDTO) -> CreateMediaInput {
        CreateMediaInput {
            name: v.name,
            slug: v.slug,
            media_type: v.media_type,
            release_date: v.release_date,
            cover: v.cover,
            parental_rating: v.parental_rating,
            genre_ids: v.genre_ids,
            composer_ids: v.composer_ids,
            interpreter_ids: v.interpreter_ids,
            album_ids: v.album_ids,
            is_single: v.is_single,
        }
    }
}

impl From<UpdateMediaDto> for Changes {
    fn from(value: UpdateMediaDto) -> (r: Changes)
        ensures
            r.name == value.name,
            r.media_type == value.media_type,
            r.slug == value.slug,
            r.release_date == value.release_date,
            r.cover == value.cover,
            r.genre_ids == value.genre_ids,
            r.parental_rating == value.parental_rating,
            r.composer_ids == value.composer_ids,
            r.interpreter_ids == value.interpreter_ids,
            r.album_ids == value.album_ids,
            r.is_single == value.is_single,
    {
        Changes {
            name: value.name,
            media_type: value.media_type,
            slug: value.slug,
            release_date: value.release_date,
            cover: value.cover,
            genre_ids: value.genre_ids,
            parental_rating: value.parental_rating,
            composer_ids: value.composer_ids,
            interpreter_ids: value.interpreter_ids,
            album_ids: value.album_ids,
            is_single: value.is_single,
        }
    }
}

impl vstd::std_specs::convert::FromSpecImpl<UpdateMediaDto> for Changes {
    open spec fn obeys_from_spec() -> bool {
        true
    }

    open spec fn from_spec(v: UpdateMediaDto) -> Changes {
        Changes {
            name: v.name,
            media_type: v.media_type,
            slug: v.slug,
            release_date: v.release_date,
            cover: v.cover,
            genre_ids: v.genre_ids,
            parental_rating: v.parental_rating,
            composer_ids: v.composer_ids,
            interpreter_ids: v.interpreter_ids,
            album_ids: v.album_ids,
            is_single: v.is_single,
        }
    }
}

/// What an answer shows of a media.
#[derive(Debug, PartialEq, Eq)]
pub struct MediaPresenter {
    pub id: UUID4,
    pub name: String,
    pub media_type: String,
    pub slug: Slug,
    pub release_date: Option<Date>,
    pub cover: Option<String>,
    pub parental_rating: u8,
    pub genre_ids: IdSet,
    pub composer_ids: IdSet,
    pub interpreter_ids: IdSet,
    pub album_ids: IdSet,
    pub is_single: bool,
    pub created_at: i64,
    pub updated_at: i64,
}

impl From<Media> for MediaPresenter {
    fn from(value: Media) -> (r: MediaPresenter)
        ensures
            r.id == value.id,
            r.name == value.name,
            r.media_type == value.media_type,
            r.slug == value.slug,
            r.release_date == value.release_date,
            r.cover == value.cover,
            r.parental_rating == value.parental_rating,
            r.genre_ids == value.genre_ids,
            r.composer_ids == value.composer_ids,
            r.interpreter_ids == value.interpreter_ids,
            r.album_ids == value.album_ids,
            r.is_single == value.is_single,
            r.created_at == value.created_at,
            r.updated_at == value.updated_at,
    {
        MediaPresenter {
            id: value.id,
            name: value.name,
            media_type: value.media_type,
            slug: value.slug,
            release_date: value.release_date,
            cover: value.cover,
            parental_rating: value.parental_rating,
            genre_ids: value.genre_ids,
            composer_ids: value.composer_ids,
            interpreter_ids: value.interpreter_ids,
            album_ids: value.album_ids,
            is_single: value.is_single,
            created_at: value.created_at,
            updated_at: value.updated_at,
        }
    }
}

impl vstd::std_specs::convert::FromSpecImpl<Media> for MediaPresenter {
    open spec fn obeys_from_spec() -> bool {
        true
    }

    open spec fn from_spec(v: Media) -> MediaPresenter {
        MediaPresenter {
            id: v.id,
            name: v.name,
            media_type: v.media_type,
            slug: v.slug,
            release_date: v.release_date,
            cover: v.cover,
            parental_rating: v.parental_rating,
            genre_ids: v.genre_ids,
            composer_ids: v.composer_ids,
            interpreter_ids: v.interpreter_ids,
            album_ids: v.album_ids,
            is_single: v.is_single,
            created_at: v.created_at,
            updated_at: v.updated_at,
        }
    }
}

/// The filters of a media listing as a request states them: one id at most
/// for each relation.
#[derive(Debug, Default, PartialEq, Eq)]
pub struct FindByQuery {
    pub search: Option<String>,
    pub release_date: Option<Date>,
    pub min_release_date: Option<Date>,
    pub max_release_date: Option<Date>,
    pub parental_rating: Option<u8>,
    pub min_parental_rating: Option<u8>,
    pub max_parental_rating: Option<u8>,
    pub is_single: Option<bool>,
    pub media_type: Option<String>,
    pub slug: Option<Slug>,
    pub artist_id: Option<UUID4>,
    pub composer_id: Option<UUID4>,
    pub genre_id: Option<UUID4>,
    pub album_id: Option<UUID4>,
}

/// The id set that a filter on one id stands for: that id alone, or no
/// filter at all.
pub open spec fn one_id_filter(id: Option<UUID4>, ids: Option<IdSet>) -> bool {
    match id {
        Some(i) => ids is Some && ids->0@ == seq![i],
        None => ids is None,
    }
}

fn one_id(id: Option<UUID4>) -> (r: Option<IdSet>)
    ensures
        one_id_filter(id, r),
{
    match id {
        Some(i) => {
            let mut ids = IdSet::new();
            ids.insert(i);
            assert(ids@ =~= seq![i]);
            Some(ids)
        },
        None => None,
    }
}

/// The listing query of the media catalogue for a page and the filters of a
/// request: each given id becomes a set of that one id.
pub fn find_by_input(page: RequestPageParams, filter: FindByQuery) -> (r: crate::domain::media::FindByQuery)
    ensures
        r.page == page,
        r.search == filter.search,
        r.release_date == filter.release_date,
        r.min_release_date == filter.min_release_date,
        r.max_release_date == filter.max_release_date,
        r.parental_rating == filter.parental_rating,
        r.min_parental_rating == filter.min_parental_rating,
        r.max_parental_rating == filter.max_parental_rating,
        r.is_single == filter.is_single,
        r.media_type == filter.media_type,
        r.slug == filter.slug,
        one_id_filter(filter.artist_id, r.artist_ids),
        one_id_filter(filter.composer_id, r.composer_ids),
        one_id_filter(filter.genre_id, r.genre_ids),
        one_id_filter(filter.album_id, r.album_ids),
{
    crate::domain::media::FindByQuery {
        page,
        search: filter.search,
        release_date: filter.release_date,
        min_release_date: filter.min_release_date,
        max_release_date: filter.max_release_date,
        parental_rating: filter.parental_rating,
        min_parental_rating: filter.min_parental_rating,
        max_parental_rating: filter.max_parental_rating,
        is_single: filter.is_single,
        media_type: filter.media_type,
        slug: filter.slug,
        artist_ids: one_id(filter.artist_id),
        composer_ids: one_id(filter.composer_id),
        genre_ids: one_id(filter.genre_id),
        album_ids: one_id(filter.album_id),
    }
}

} // verus!
