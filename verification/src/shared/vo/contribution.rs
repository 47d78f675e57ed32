use vstd::prelude::*;
use crate::domain;

verus! {

/// The kinds of entity that users can contribute changes to.
#[derive(Debug, Clone, Copy, PartialEq, Eq, Structural)]
pub enum CollaborativeEntityName {
    Genre,
    Artist,
    Album,
}

/// A proposed change to one entity of the catalogue.
#[derive(Debug, PartialEq, Eq)]
pub enum Contribution {
    Genre(domain::genre::Contribution),
    Artist(domain::artist::Contribution),
    Album(domain::album::Contribution),
}

/// A proposed change as a value.
pub enum ContributionView {
    Genre(domain::genre::Contribution),
    Artist(domain::artist::Contribution),
    Album(domain::album::ContributionView),
}

impl View for Contribution {
    type V = ContributionView;

    open spec fn view(&self) -> ContributionView {
        match self {
            Contribution::Genre(c) => ContributionView::Genre(*c),
            Contribution::Artist(c) => ContributionView::Artist(*c),
            Contribution::Album(c) => ContributionView::Album(c@),
        }
    }
}

impl Clone for Contribution {
    fn clone(&self) -> (r: Contribution)
        ensures
            r@ == self@,
    {
        match self {
            Contribution::Genre(c) => Contribution::Genre(c.clone()),
            Contribution::Artist(c) => Contribution::Artist(c.clone()),
            Contribution::Album(c) => Contribution::Album(c.clone()),
        }
    }
}

impl Default for Contribution {
    /// The creation of an empty genre.
    fn default() -> (r: Contribution)
        ensures
            r matches Contribution::Genre(c) && c matches domain::genre::Contribution::Create(g)
                && g.id.0@.len() == 0 && g.name@.len() == 0 && g.slug.0@.len() == 0
                && g.parent_id is None && g.created_at == 0 && g.updated_at == 0,
    {
        Contribution::Genre(domain::genre::Contribution::default())
    }
}

} // verus!
