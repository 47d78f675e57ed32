use vstd::prelude::*;
use crate::domain::artist::{ApplyChangesError, ContributeError, FindBySlugError, RepositoryError};
use crate::infra::actix::activity::error::activity_repository_error_response;
use crate::infra::actix::errors::{ErrorResponse, ErrorResponseView};

verus! {

broadcast use vstd::string::group_string_axioms;

/// The error answer for an error of contributing to an artist.
pub open spec fn artist_contribute_error_response(value: ContributeError) -> ErrorResponseView {
    match value {
        ContributeError::ActivityRepositoryError(error) => activity_repository_error_response(error),
        ContributeError::ArtistNotFound => ErrorResponseView::NotFound("Artist not found"@),
        ContributeError::ArtistRepositoryError(error) => artist_repository_error_response(error),
    }
}

/// The error answer for an error of applying a change to an artist.
pub open spec fn artist_apply_changes_error_response(value: ApplyChangesError) -> ErrorResponseView {
    match value {
        ApplyChangesError::EntityIsNotArtist => ErrorResponseView::BadRequest("Entity is not an artist"@, None),
        ApplyChangesError::RepositoryError(error) => artist_repository_error_response(error),
    }
}

/// The error answer for an error of an artist repository.
pub open spec fn artist_repository_error_response(value: RepositoryError) -> ErrorResponseView {
    match value {
        RepositoryError::DatabaseError(error) => ErrorResponseView::InternalServerError(error@),
        RepositoryError::Conflict(error) => ErrorResponseView::Conflict(error@),
    }
}

/// The error answer for an error of looking an artist up by slug.
pub open spec fn artist_find_by_slug_error_response(value: FindBySlugError) -> ErrorResponseView {
    match value {
        FindBySlugError::ArtistNotFound => ErrorResponseView::NotFound("Artist not found"@),
        FindBySlugError::RepositoryError(error) => artist_repository_error_response(error),
    }
}

impl ErrorResponse {
    /// The error answer for an error of contributing to an artist.
    pub fn from_artist_contribute_error(value: ContributeError) -> (r: ErrorResponse)
        ensures
            r@ == artist_contribute_error_response(value),
    {
        match value {
            ContributeError::ActivityRepositoryError(error) => ErrorResponse::from_activity_repository_error(error),
            ContributeError::ArtistNotFound => ErrorResponse::NotFound("Artist not found".to_string()),
            ContributeError::ArtistRepositoryError(error) => ErrorResponse::from_artist_repository_error(error),
        }
    }

    /// The error answer for an error of applying a change to an artist.
    pub fn from_artist_apply_changes_error(value: ApplyChangesError) -> (r: ErrorResponse)
        ensures
            r@ == artist_apply_changes_error_response(value),
    {
        match value {
            ApplyChangesError::EntityIsNotArtist => ErrorResponse::BadRequest("Entity is not an artist".to_string(), None),
            ApplyChangesError::RepositoryError(error) => ErrorResponse::from_artist_repository_error(error),
        }
    }

    /// The error answer for an error of an artist repository.
    pub fn from_artist_repository_error(value: RepositoryError) -> (r: ErrorResponse)
        ensures
            r@ == artist_repository_error_response(value),
    {
        match value {
            RepositoryError::DatabaseError(error) => ErrorResponse::InternalServerError(error),
            RepositoryError::Conflict(error) => ErrorResponse::Conflict(error),
        }
    }

    /// The error answer for an error of looking an artist up by slug.
    pub fn from_artist_find_by_slug_error(value: FindBySlugError) -> (r: ErrorResponse)
        ensures
            r@ == artist_find_by_slug_error_response(value),
    {
        match value {
            FindBySlugError::ArtistNotFound => ErrorResponse::NotFound("Artist not found".to_string()),
            FindBySlugError::RepositoryError(error) => ErrorResponse::from_artist_repository_error(error),
        }
    }
}

/// The fixed answers: each error that carries no message of its own is
/// answered with its own status and text.
pub proof fn artist_errors_have_fixed_answers()
    ensures
        artist_contribute_error_response(ContributeError::ArtistNotFound) == ErrorResponseView::NotFound("Artist not found"@),
        artist_apply_changes_error_response(ApplyChangesError::EntityIsNotArtist) == ErrorResponseView::BadRequest("Entity is not an artist"@, None),
        artist_find_by_slug_error_response(FindBySlugError::ArtistNotFound) == ErrorResponseView::NotFound("Artist not found"@),
{
}

} // verus!
