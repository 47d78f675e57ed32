use vstd::prelude::*;
use crate::domain::genre::{ApplyChangesError, ContributeError, Error};
use crate::infra::actix::activity::error::activity_repository_error_response;
use crate::infra::actix::errors::{ErrorResponse, ErrorResponseView};

verus! {

broadcast use vstd::string::group_string_axioms;

/// The error answer for an error of a genre repository.
pub open spec fn genre_error_response(value: Error) -> ErrorResponseView {
    match value {
        Error::DatabaseError(err) => ErrorResponseView::InternalServerError(err@),
    }
}

/// The error answer for an error of contributing to a genre.
pub open spec fn genre_contribute_error_response(value: ContributeError) -> ErrorResponseView {
    match value {
        ContributeError::ActivityRepositoryError(error) => activity_repository_error_response(error),
        ContributeError::GenreNotFound => ErrorResponseView::NotFound("Genre not found"@),
        ContributeError::GenreRepositoryError(error) => genre_error_response(error),
    }
}

/// The error answer for an error of applying a change to a genre.
pub open spec fn genre_apply_changes_error_response(value: ApplyChangesError) -> ErrorResponseView {
    match value {
        ApplyChangesError::EntityIsNotGenre => ErrorResponseView::BadRequest("Entity is not a genre"@, None),
        ApplyChangesError::RepositoryError(error) => genre_error_response(error),
    }
}

impl ErrorResponse {
    /// The error answer for an error of a genre repository.
    pub fn from_genre_error(value: Error) -> (r: ErrorResponse)
        ensures
            r@ == genre_error_response(value),
    {
        match value {
            Error::DatabaseError(err) => ErrorResponse::InternalServerError(err),
        }
    }

    /// The error answer for an error of contributing to a genre.
    pub fn from_genre_contribute_error(value: ContributeError) -> (r: ErrorResponse)
        ensures
            r@ == genre_contribute_error_response(value),
    {
        match value {
            ContributeError::ActivityRepositoryError(error) => ErrorResponse::from_activity_repository_error(error),
            ContributeError::GenreNotFound => ErrorResponse::NotFound("Genre not found".to_string()),
            ContributeError::GenreRepositoryError(error) => ErrorResponse::from_genre_error(error),
        }
    }

    /// The error answer for an error of applying a change to a genre.
    pub fn from_genre_apply_changes_error(value: ApplyChangesError) -> (r: ErrorResponse)
        ensures
            r@ == genre_apply_changes_error_response(value),
    {
        match value {
            ApplyChangesError::EntityIsNotGenre => ErrorResponse::BadRequest("Entity is not a genre".to_string(), None),
            ApplyChangesError::RepositoryError(error) => ErrorResponse::from_genre_error(error),
        }
    }
}

/// The fixed answers: each error that carries no message of its own is
/// answered with its own status and text.
pub proof fn genre_errors_have_fixed_answers()
    ensures
        genre_contribute_error_response(ContributeError::GenreNotFound) == ErrorResponseView::NotFound("Genre not found"@),
        genre_apply_changes_error_response(ApplyChangesError::EntityIsNotGenre) == ErrorResponseView::BadRequest("Entity is not a genre"@, None),
{
}

} // verus!
