use vstd::prelude::*;
use crate::domain::activity::{ApproveError, Error, RejectError, RepositoryError};
use crate::infra::actix::errors::{ErrorResponse, ErrorResponseView};

verus! {

broadcast use vstd::string::group_string_axioms;

/// The error answer for an error of an activity repository.
pub open spec fn activity_repository_error_response(value: RepositoryError) -> ErrorResponseView {
    match value {
        RepositoryError::EntityNotFound => ErrorResponseView::NotFound("Activity not found"@),
        RepositoryError::InternalServerError(err) => ErrorResponseView::InternalServerError(err@),
    }
}

/// The error answer for an error of an activity.
pub open spec fn activity_error_response(value: Error) -> ErrorResponseView {
    match value {
        Error::ActivityIsNotPending => ErrorResponseView::BadRequest("Activity is not pending"@, None),
    }
}

/// The error answer for an error of approving an activity.
pub open spec fn approve_error_response(value: ApproveError) -> ErrorResponseView {
    match value {
        ApproveError::ActivityError(error) => activity_error_response(error),
        ApproveError::ActivityNotFound => ErrorResponseView::NotFound("Activity not found"@),
        ApproveError::AlbumApplyError(error) => crate::infra::actix::album::error::album_apply_changes_error_response(error),
        ApproveError::ArtistApplyError(error) => crate::infra::actix::artist::error::artist_apply_changes_error_response(error),
        ApproveError::GenreApplyError(error) => crate::infra::actix::genre::error::genre_apply_changes_error_response(error),
        ApproveError::RepositoryError(error) => activity_repository_error_response(error),
        ApproveError::UserIsNotACurator => ErrorResponseView::Forbidden("User is not a curator"@),
        ApproveError::MediaApplyError(error) => crate::infra::actix::media::error::media_apply_changes_error_response(error),
    }
}

/// The error answer for an error of rejecting an activity.
pub open spec fn reject_error_response(value: RejectError) -> ErrorResponseView {
    match value {
        RejectError::ActivityError(error) => activity_error_response(error),
        RejectError::ActivityNotFound => ErrorResponseView::NotFound("Activity not found"@),
        RejectError::ActivityRepositoryError(error) => activity_repository_error_response(error),
        RejectError::UserIsNotACurator => ErrorResponseView::Forbidden("User is not a curator"@),
    }
}

impl ErrorResponse {
    /// The error answer for an error of an activity repository.
    pub fn from_activity_repository_error(value: RepositoryError) -> (r: ErrorResponse)
        ensures
            r@ == activity_repository_error_response(value),
    {
        match value {
            RepositoryError::EntityNotFound => ErrorResponse::NotFound("Activity not found".to_string()),
            RepositoryError::InternalServerError(err) => ErrorResponse::InternalServerError(err),
        }
    }

    /// The error answer for an error of an activity.
    pub fn from_activity_error(value: Error) -> (r: ErrorResponse)
        ensures
            r@ == activity_error_response(value),
    {
        match value {
            Error::ActivityIsNotPending => ErrorResponse::BadRequest("Activity is not pending".to_string(), None),
        }
    }

    /// The error answer for an error of approving an activity.
    pub fn from_approve_error(value: ApproveError) -> (r: ErrorResponse)
        ensures
            r@ == approve_error_response(value),
    {
        match value {
            ApproveError::ActivityError(error) => ErrorResponse::from_activity_error(error),
            ApproveError::ActivityNotFound => ErrorResponse::NotFound("Activity not found".to_string()),
            ApproveError::AlbumApplyError(error) => ErrorResponse::from_album_apply_changes_error(error),
            ApproveError::ArtistApplyError(error) => ErrorResponse::from_artist_apply_changes_error(error),
            ApproveError::GenreApplyError(error) => ErrorResponse::from_genre_apply_changes_error(error),
            ApproveError::RepositoryError(error) => ErrorResponse::from_activity_repository_error(error),
            ApproveError::UserIsNotACurator => ErrorResponse::Forbidden("User is not a curator".to_string()),
            ApproveError::MediaApplyError(error) => ErrorResponse::from_media_apply_changes_error(error),
        }
    }

    /// The error answer for an error of rejecting an activity.
    pub fn from_reject_error(value: RejectError) -> (r: ErrorResponse)
        ensures
            r@ == reject_error_response(value),
    {
        match value {
            RejectError::ActivityError(error) => ErrorResponse::from_activity_error(error),
            RejectError::ActivityNotFound => ErrorResponse::NotFound("Activity not found".to_string()),
            RejectError::ActivityRepositoryError(error) => ErrorResponse::from_activity_repository_error(error),
            RejectError::UserIsNotACurator => ErrorResponse::Forbidden("User is not a curator".to_string()),
        }
    }
}

/// The fixed answers: each error that carries no message of its own is
/// answered with its own status and text.
pub proof fn activity_errors_have_fixed_answers()
    ensures
        activity_repository_error_response(RepositoryError::EntityNotFound) == ErrorResponseView::NotFound("Activity not found"@),
        activity_error_response(Error::ActivityIsNotPending) == ErrorResponseView::BadRequest("Activity is not pending"@, None),
        approve_error_response(ApproveError::ActivityNotFound) == ErrorResponseView::NotFound("Activity not found"@),
        approve_error_response(ApproveError::UserIsNotACurator) == ErrorResponseView::Forbidden("User is not a curator"@),
        reject_error_response(RejectError::ActivityNotFound) == ErrorResponseView::NotFound("Activity not found"@),
        reject_error_response(RejectError::UserIsNotACurator) == ErrorResponseView::Forbidden("User is not a curator"@),
{
}

} // verus!
