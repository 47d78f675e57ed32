use vstd::prelude::*;
use crate::domain::artist::Artist;
use crate::shared::copy::copy_opt_string;
use crate::shared::paged::Paged;
use crate::shared::vo::Slug;

verus! {

/// What an answer shows of an artist.
#[derive(Debug, PartialEq, Eq)]
pub struct ArtistPresenter {
    pub id: String,
    pub name: String,
    pub slug: Slug,
    pub country: Option<String>,
}

/// What an answer shows of `artist`.
pub open spec fn artist_presenter_of(artist: Artist) -> ArtistPresenter {
    ArtistPresenter {
        id: artist.id.0,
        name: artist.name,
        slug: artist.slug,
        country: artist.country,
    }
}

impl From<Artist> for ArtistPresenter {
    fn from(value: Artist) -> (r: ArtistPresenter)
        ensures
            r.id == value.id.0,
            r.name == value.name,
            r.slug == value.slug,
            r.country == value.country,
    {
        ArtistPresenter { id: value.id.0, name: value.name, slug: value.slug, country: value.country }
    }
}

impl vstd::std_specs::convert::FromSpecImpl<Artist> for ArtistPresenter {
    open spec fn obeys_from_spec() -> bool {
        true
    }

    open spec fn from_spec(v: Artist) -> ArtistPresenter {
        artist_presenter_of(v)
    }
}

impl ArtistPresenter {
    /// What an answer shows of the artist that `artist` refers to.
    pub fn of(artist: &Artist) -> (r: ArtistPresenter)
        ensures
            r == artist_presenter_of(*artist),
    {
        ArtistPresenter {
            id: artist.id.0.clone(),
            name: artist.name.clone(),
            slug: artist.slug.clone(),
            country: copy_opt_string(&artist.country),
        }
    }

    /// Each artist of `artists` presented, in order.
    pub fn all(artists: &Vec<Artist>) -> (r: Vec<ArtistPresenter>)
        ensures
            r@.len() == artists@.len(),
            forall|i: int| 0 <= i < r@.len() ==> #[trigger] r@[i] == artist_presenter_of(artists@[i]),
    {
        let mut items: Vec<ArtistPresenter> = Vec::new();
        for i in 0..artists.len()
            invariant
                items@.len() == i,
                forall|j: int| 0 <= j < i ==> #[trigger] items@[j] == artist_presenter_of(artists@[j]),
        {
            items.push(ArtistPresenter::of(&artists[i]));
        }
        items
    }

    /// A page of artists as an answer shows it: each artist presented, in
    /// order, and the same paging.
    pub fn paged(value: Paged<Artist>) -> (r: Paged<ArtistPresenter>)
        ensures
            r.items@.len() == value.items@.len(),
            forall|i: int|
                0 <= i < r.items@.len() ==> #[trigger] r.items@[i] == artist_presenter_of(value.items@[i]),
            r.page == value.page,
            r.total_items == value.total_items,
            r.total_pages == value.total_pages,
    {
        Paged {
            items: ArtistPresenter::all(&value.items),
            page: value.page,
            total_items: value.total_items,
            total_pages: value.total_pages,
        }
    }
}

} // verus!
