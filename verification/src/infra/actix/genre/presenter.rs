use vstd::prelude::*;
use crate::domain::genre::{Genre, GenreAggregate};
use crate::shared::paged::Paged;
use crate::shared::vo::{Slug, UUID4};

verus! {

/// What an answer shows of a genre.
#[derive(Debug, PartialEq, Eq)]
pub struct GenrePresenter {
    pub id: UUID4,
    pub name: String,
    pub slug: Slug,
}

/// What an answer shows of a genre and its related genres.
#[derive(Debug, PartialEq, Eq)]
pub struct GenreAggregatePresenter {
    pub genre: GenrePresenter,
    pub related: Vec<GenrePresenter>,
}

/// What an answer shows of `genre`.
pub open spec fn genre_presenter_of(genre: Genre) -> GenrePresenter {
    GenrePresenter { id: genre.id, name: genre.name, slug: genre.slug }
}

impl From<Genre> for GenrePresenter {
    fn from(value: Genre) -> (r: GenrePresenter)
        ensures
            r.id == value.id,
            r.name == value.name,
            r.slug == value.slug,
    {
        GenrePresenter { id: value.id, name: value.name, slug: value.slug }
    }
}

impl vstd::std_specs::convert::FromSpecImpl<Genre> for GenrePresenter {
    open spec fn obeys_from_spec() -> bool {
        true
    }

    open spec fn from_spec(v: Genre) -> GenrePresenter {
        genre_presenter_of(v)
    }
}

impl GenrePresenter {
    /// What an answer shows of the genre that `genre` refers to.
    pub fn of(genre: &Genre) -> (r: GenrePresenter)
        ensures
            r == genre_presenter_of(*genre),
    {
        GenrePresenter { id: genre.id.clone(), name: genre.name.clone(), slug: genre.slug.clone() }
    }

    /// Each genre of `genres` presented, in order.
    fn all(genres: &Vec<Genre>) -> (r: Vec<GenrePresenter>)
        ensures
            r@.len() == genres@.len(),
            forall|i: int| 0 <= i < r@.len() ==> #[trigger] r@[i] == genre_presenter_of(genres@[i]),
    {
        let mut items: Vec<GenrePresenter> = Vec::new();
        for i in 0..genres.len()
            invariant
                items@.len() == i,
                forall|j: int| 0 <= j < i ==> #[trigger] items@[j] == genre_presenter_of(genres@[j]),
        {
            items.push(GenrePresenter::of(&genres[i]));
        }
        items
    }

    /// A page of genres as an answer shows it: each genre presented, in
    /// order, and the same paging.
    pub fn paged(value: Paged<Genre>) -> (r: Paged<GenrePresenter>)
        ensures
            r.items@.len() == value.items@.len(),
            forall|i: int|
                0 <= i < r.items@.len() ==> #[trigger] r.items@[i] == genre_presenter_of(value.items@[i]),
            r.page == value.page,
            r.total_items == value.total_items,
            r.total_pages == value.total_pages,
    {
        Paged {
            items: GenrePresenter::all(&value.items),
            total_items: value.total_items,
            total_pages: value.total_pages,
            page: value.page,
        }
    }
}

impl GenreAggregatePresenter {
    /// What an answer shows of a genre and its related genres: each presented,
    /// the related ones in order.
    pub fn from(value: GenreAggregate) -> (r: GenreAggregatePresenter)
        ensures
            r.genre == genre_presenter_of(value.genre),
            r.related@.len() == value.related@.len(),
            forall|i: int|
                0 <= i < r.related@.len() ==> #[trigger] r.related@[i] == genre_presenter_of(
                    value.related@[i],
                ),
    {
        GenreAggregatePresenter {
            genre: GenrePresenter::of(&value.genre),
            related: GenrePresenter::all(&value.related),
        }
    }
}

} // verus!
