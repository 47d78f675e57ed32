use vstd::prelude::*;
use crate::domain::entity::Entity;
use crate::shared::copy::{copy_opt_slug, copy_opt_string};
use crate::shared::vo::{Slug, UUID4};

verus! {

/// A performer or composer. Times are seconds since the Unix epoch.
#[derive(Debug, Default, PartialEq, Eq)]
pub struct Artist {
    pub id: UUID4,
    pub name: String,
    pub slug: Slug,
    pub country: Option<String>,
    pub created_at: i64,
    pub updated_at: i64,
}

impl Clone for Artist {
    fn clone(&self) -> (r: Artist)
        ensures
            r == *self,
    {
        Artist {
            id: self.id.clone(),
            name: self.name.clone(),
            slug: self.slug.clone(),
            country: copy_opt_string(&self.country),
            created_at: self.created_at,
            updated_at: self.updated_at,
        }
    }
}

/// The fields of an artist that a contribution sets; `None` leaves a field as
/// it is.
#[derive(Debug, Default, PartialEq, Eq)]
pub struct Changes {
    pub name: Option<String>,
    pub country: Option<String>,
    pub slug: Option<Slug>,
}

impl Clone for Changes {
    fn clone(&self) -> (r: Changes)
        ensures
            r == *self,
    {
        Changes {
            name: copy_opt_string(&self.name),
            country: copy_opt_string(&self.country),
            slug: copy_opt_slug(&self.slug),
        }
    }
}

/// What a contribution that creates an artist gives.
#[derive(Debug, PartialEq, Eq)]
pub struct CreateArtistInput {
    pub name: String,
    pub country: Option<String>,
    pub slug: Option<Slug>,
}

/// A change to an artist that a user proposes.
#[derive(Debug, PartialEq, Eq)]
pub enum Contribution {
    Create(Artist),
    Update { artist: Artist, changes: Changes },
    Delete(Artist),
}

impl Clone for Contribution {
    fn clone(&self) -> (r: Contribution)
        ensures
            r == *self,
    {
        match self {
            Contribution::Create(e) => Contribution::Create(e.clone()),
            Contribution::Update { artist, changes } => Contribution::Update {
                artist: artist.clone(),
                changes: changes.clone(),
            },
            Contribution::Delete(e) => Contribution::Delete(e.clone()),
        }
    }
}

/// Errors of an artist repository.
#[derive(Debug, PartialEq, Eq)]
pub enum RepositoryError {
    DatabaseError(String),
    Conflict(String),
}

/// Errors of contributing a change to an artist.
#[derive(Debug, PartialEq, Eq)]
pub enum ContributeError {
    ActivityRepositoryError(crate::domain::activity::RepositoryError),
    ArtistNotFound,
    ArtistRepositoryError(RepositoryError),
}

/// Errors of applying an approved change to an artist.
#[derive(Debug, PartialEq, Eq)]
pub enum ApplyChangesError {
    EntityIsNotArtist,
    RepositoryError(RepositoryError),
}

/// Errors of looking an artist up by its slug.
#[derive(Debug, PartialEq, Eq)]
pub enum FindBySlugError {
    ArtistNotFound,
    RepositoryError(RepositoryError),
}

impl View for Artist {
    type V = Artist;

    open spec fn view(&self) -> Artist {
        *self
    }
}

impl Entity for Artist {
    open spec fn key(&self) -> Seq<char> {
        self.id.0@
    }

    fn id_text(&self) -> (r: &String) {
        &self.id.0
    }

    fn duplicate(&self) -> (r: Artist) {
        self.clone()
    }
}

} // verus!
