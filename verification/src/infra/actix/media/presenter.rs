use vstd::prelude::*;
use crate::domain::media::MediaAggregate;
use crate::infra::actix::artist::presenter::{artist_presenter_of, ArtistPresenter};
use crate::shared::paged::Paged;
use crate::shared::vo::{Date, Slug, UUID4};

verus! {

/// What an answer shows of a media with its composers and interpreters.
#[derive(Debug, PartialEq, Eq)]
pub struct MediaAggregatePresenter {
    pub id: UUID4,
    pub name: String,
    pub media_type: String,
    pub is_single: bool,
    pub slug: Slug,
    pub release_date: Option<Date>,
    pub cover: Option<String>,
    pub parental_rating: u8,
    pub composers: Vec<ArtistPresenter>,
    pub interpreters: Vec<ArtistPresenter>,
    pub created_at: i64,
    pub updated_at: i64,
}

/// `presented` shows each artist of `artists`, in order.
pub open spec fn presents_artists(presented: Seq<ArtistPresenter>, artists: Seq<crate::domain::artist::Artist>) -> bool {
    &&& presented.len() == artists.len()
    &&& forall|i: int| 0 <= i < presented.len() ==> #[trigger] presented[i] == artist_presenter_of(artists[i])
}

/// `p` shows the media of `a` and its composers and interpreters.
pub open spec fn presents_media(p: MediaAggregatePresenter, a: MediaAggregate) -> bool {
    &&& p.id == a.media.id
    &&& p.name == a.media.name
    &&& p.media_type == a.media.media_type
    &&& p.is_single == a.media.is_single
    &&& p.slug == a.media.slug
    &&& p.release_date == a.media.release_date
    &&& p.cover == a.media.cover
    &&& p.parental_rating == a.media.parental_rating
    &&& presents_artists(p.composers@, a.composers@)
    &&& presents_artists(p.interpreters@, a.interpreters@)
    &&& p.created_at == a.media.created_at
    &&& p.updated_at == a.media.updated_at
}

impl MediaAggregatePresenter {
    /// What an answer shows of a media with its composers and interpreters,
    /// each presented in order; the sources are not shown.
    pub fn from(value: MediaAggregate) -> (r: MediaAggregatePresenter)
        ensures
            presents_media(r, value),
    {
        let composers = ArtistPresenter::all(&value.composers);
        let interpreters = ArtistPresenter::all(&value.interpreters);
        MediaAggregatePresenter {
            id: value.media.id,
            name: value.media.name,
            media_type: value.media.media_type,
            slug: value.media.slug,
            release_date: value.media.release_date,
            cover: value.media.cover,
            parental_rating: value.media.parental_rating,
            composers,
            interpreters,
            is_single: value.media.is_single,
            created_at: value.media.created_at,
            updated_at: value.media.updated_at,
        }
    }

    /// A page of media as an answer shows it: each presented, in order, and
    /// the same paging.
    pub fn paged(value: Paged<MediaAggregate>) -> (r: Paged<MediaAggregatePresenter>)
        ensures
            r.items@.len() == value.items@.len(),
            forall|i: int| 0 <= i < r.items@.len() ==> presents_media(#[trigger] r.items@[i], value.items@[i]),
            r.page == value.page,
            r.total_items == value.total_items,
            r.total_pages == value.total_pages,
    {
        let Paged { items, total_items, total_pages, page } = value;
        let ghost all_items = items@;
        let mut rest = items;
        let mut presented: Vec<MediaAggregatePresenter> = Vec::new();
        while rest.len() > 0
            invariant
                presented@.len() + rest@.len() == all_items.len(),
                forall|j: int| 0 <= j < presented@.len() ==> presents_media(#[trigger] presented@[j], all_items[j]),
                rest@ == all_items.subrange(presented@.len() as int, all_items.len() as int),
            decreases rest@.len(),
        {
            let next = rest.remove(0);
            presented.push(MediaAggregatePresenter::from(next));
            assert(rest@ =~= all_items.subrange(presented@.len() as int, all_items.len() as int));
        }
        Paged { items: presented, total_items, total_pages, page }
    }
}

} // verus!
