use vstd::prelude::*;
use crate::domain::media::{ApplyChangesError, ContributeError, RepositoryError};
use crate::infra::actix::activity::error::activity_repository_error_response;
use crate::infra::actix::album::error::album_repository_error_response;
use crate::infra::actix::errors::{ErrorResponse, ErrorResponseView};

verus! {

broadcast use vstd::string::group_string_axioms;

/// The error answer for an error of applying a change to a media.
pub open spec fn media_apply_changes_error_response(value: ApplyChangesError) -> ErrorResponseView {
    match value {
        ApplyChangesError::AlbumRepositoryError(error) => album_repository_error_response(error),
        ApplyChangesError::RepositoryError(error) => media_repository_error_response(error),
    }
}

/// The error answer for an error of a media repository.
pub open spec fn media_repository_error_response(value: RepositoryError) -> ErrorResponseView {
    match value {
        RepositoryError::DatabaseError(error) => ErrorResponseView::InternalServerError(error@),
    }
}

/// The error answer for an error of contributing to a media.
pub open spec fn media_contribute_error_response(value: ContributeError) -> ErrorResponseView {
    match value {
        ContributeError::ActivityRepositoryError(error) => activity_repository_error_response(error),
        ContributeError::MediaNotFound => ErrorResponseView::NotFound("Media not found"@),
        ContributeError::MediaRepositoryError(error) => media_repository_error_response(error),
    }
}

impl ErrorResponse {
    /// The error answer for an error of applying a change to a media.
    pub fn from_media_apply_changes_error(value: ApplyChangesError) -> (r: ErrorResponse)
        ensures
            r@ == media_apply_changes_error_response(value),
    {
        match value {
            ApplyChangesError::AlbumRepositoryError(error) => ErrorResponse::from_album_repository_error(error),
            ApplyChangesError::RepositoryError(error) => ErrorResponse::from_media_repository_error(error),
        }
    }

    /// The error answer for an error of a media repository.
    pub fn from_media_repository_error(value: RepositoryError) -> (r: ErrorResponse)
        ensures
            r@ == media_repository_error_response(value),
    {
        match value {
            RepositoryError::DatabaseError(error) => ErrorResponse::InternalServerError(error),
        }
    }

    /// The error answer for an error of contributing to a media.
    pub fn from_media_contribute_error(value: ContributeError) -> (r: ErrorResponse)
        ensures
            r@ == media_contribute_error_response(value),
    {
        match value {
            ContributeError::ActivityRepositoryError(error) => ErrorResponse::from_activity_repository_error(error),
            ContributeError::MediaNotFound => ErrorResponse::NotFound("Media not found".to_string()),
            ContributeError::MediaRepositoryError(error) => ErrorResponse::from_media_repository_error(error),
        }
    }
}

/// The fixed answers: each error that carries no message of its own is
/// answered with its own status and text.
pub proof fn media_errors_have_fixed_answers()
    ensures
        media_contribute_error_response(ContributeError::MediaNotFound) == ErrorResponseView::NotFound("Media not found"@),
{
}

} // verus!
