use vstd::prelude::*;
use crate::domain::entity::Entity;
use crate::shared::copy::{copy_opt_id, copy_opt_slug, copy_opt_string};
use crate::shared::vo::{Slug, UUID4};

verus! {

/// A musical genre, possibly the subgenre of another. Times are seconds since
/// the Unix epoch.
#[derive(Debug, Default, PartialEq, Eq)]
pub struct Genre {
    pub id: UUID4,
    pub name: String,
    pub slug: Slug,
    pub parent_id: Option<UUID4>,
    pub created_at: i64,
    pub updated_at: i64,
}

impl Clone for Genre {
    fn clone(&self) -> (r: Genre)
        ensures
            r == *self,
    {
        Genre {
            id: self.id.clone(),
            name: self.name.clone(),
            slug: self.slug.clone(),
            parent_id: copy_opt_id(&self.parent_id),
            created_at: self.created_at,
            updated_at: self.updated_at,
        }
    }
}

/// A genre together with its related genres.
#[derive(Debug, Default, PartialEq, Eq)]
pub struct GenreAggregate {
    pub genre: Genre,
    pub related: Vec<Genre>,
}

/// The fields of a genre that a contribution sets; `None` leaves a field as
/// it is, and `Some(None)` for the parent makes the genre a root genre.
#[derive(Debug, Default, PartialEq, Eq)]
pub struct Changes {
    pub name: Option<String>,
    pub parent_id: Option<Option<UUID4>>,
    pub slug: Option<Slug>,
}

impl Clone for Changes {
    fn clone(&self) -> (r: Changes)
        ensures
            r == *self,
    {
        Changes {
            name: copy_opt_string(&self.name),
            parent_id: match &self.parent_id {
                Some(p) => Some(copy_opt_id(p)),
                None => None,
            },
            slug: copy_opt_slug(&self.slug),
        }
    }
}

/// What a contribution that creates a genre gives.
#[derive(Debug, PartialEq, Eq)]
pub struct CreateGenreInput {
    pub name: String,
    pub parent_id: Option<UUID4>,
    pub slug: Option<Slug>,
}

/// A change to a genre that a user proposes.
#[derive(Debug, PartialEq, Eq)]
pub enum Contribution {
    Create(Genre),
    Update { genre: Genre, changes: Changes },
    Delete(Genre),
}

impl Clone for Contribution {
    fn clone(&self) -> (r: Contribution)
        ensures
            r == *self,
    {
        match self {
            Contribution::Create(e) => Contribution::Create(e.clone()),
            Contribution::Update { genre, changes } => Contribution::Update {
                genre: genre.clone(),
                changes: changes.clone(),
            },
            Contribution::Delete(e) => Contribution::Delete(e.clone()),
        }
    }
}

impl Default for Contribution {
    /// The creation of an empty genre.
    fn default() -> (r: Contribution)
        ensures
            r matches Contribution::Create(g) && g.id.0@.len() == 0 && g.name@.len() == 0
                && g.slug.0@.len() == 0 && g.parent_id is None && g.created_at == 0
                && g.updated_at == 0,
    {
        Contribution::Create(Genre {
            id: UUID4(String::new()),
            name: String::new(),
            slug: Slug(String::new()),
            parent_id: None,
            created_at: 0,
            updated_at: 0,
        })
    }
}

/// Errors of a genre repository.
#[derive(Debug, PartialEq, Eq)]
pub enum Error {
    DatabaseError(String),
}

/// Errors of contributing a change to a genre.
#[derive(Debug, PartialEq, Eq)]
pub enum ContributeError {
    ActivityRepositoryError(crate::domain::activity::RepositoryError),
    GenreNotFound,
    GenreRepositoryError(Error),
}

/// Errors of applying an approved change to a genre.
#[derive(Debug, PartialEq, Eq)]
pub enum ApplyChangesError {
    EntityIsNotGenre,
    RepositoryError(Error),
}

impl View for Genre {
    type V = Genre;

    open spec fn view(&self) -> Genre {
        *self
    }
}

impl Entity for Genre {
    open spec fn key(&self) -> Seq<char> {
        self.id.0@
    }

    fn id_text(&self) -> (r: &String) {
        &self.id.0
    }

    fn duplicate(&self) -> (r: Genre) {
        self.clone()
    }
}

} // verus!
