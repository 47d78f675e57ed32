use vstd::prelude::*;
use crate::shared::vo::UUID4;

verus! {

/// Where a media can be played.
#[derive(Debug, Clone, Copy, Default, PartialEq, Eq, Structural)]
pub enum SourceType {
    #[default]
    Youtube,
}

/// A place where a media can be played. Times are seconds since the Unix
/// epoch.
#[derive(Debug, Default, PartialEq, Eq)]
pub struct Source {
    pub id: UUID4,
    pub source_type: SourceType,
    pub src: String,
    pub media_id: UUID4,
    pub created_at: i64,
    pub updated_at: i64,
}

/// What a contribution that adds a source gives.
#[derive(Debug, PartialEq, Eq)]
pub struct CreateSourceInput {
    pub src: String,
    pub media_id: UUID4,
    pub source_type: SourceType,
}

/// Errors of a source repository.
#[derive(Debug, PartialEq, Eq)]
pub enum RepositoryError {
    DatabaseError(String),
}

/// Errors of applying an approved change to a source.
#[derive(Debug, PartialEq, Eq)]
pub enum ApplyChangesError {
    RepositoryError(RepositoryError),
}

/// Errors of contributing a change to a source.
#[derive(Debug, PartialEq, Eq)]
pub enum ContributeError {
    ActivityRepositoryError(crate::domain::activity::RepositoryError),
    SourceNotFound,
    SourceRepositoryError(RepositoryError),
}

} // verus!
