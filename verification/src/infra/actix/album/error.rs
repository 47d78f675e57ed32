use vstd::prelude::*;
use crate::domain::album::{ApplyChangesError, ContributeError, FindByError, FindBySlugError, RepositoryError};
use crate::infra::actix::activity::error::activity_repository_error_response;
use crate::infra::actix::errors::{ErrorResponse, ErrorResponseView};

verus! {

broadcast use vstd::string::group_string_axioms;

/// The error answer for an error of applying a change to an album.
pub open spec fn album_apply_changes_error_response(value: ApplyChangesError) -> ErrorResponseView {
    match value {
        ApplyChangesError::EntityIsNotAlbum => ErrorResponseView::BadRequest("Entity is not an album"@, None),
        ApplyChangesError::RepositoryError(error) => album_repository_error_response(error),
    }
}

/// The error answer for an error of an album repository.
pub open spec fn album_repository_error_response(value: RepositoryError) -> ErrorResponseView {
    match value {
        RepositoryError::DatabaseError(error) => ErrorResponseView::InternalServerError(error@),
    }
}

/// The error answer for an error of contributing to an album.
pub open spec fn album_contribute_error_response(value: ContributeError) -> ErrorResponseView {
    match value {
        ContributeError::ActivityRepositoryError(error) => activity_repository_error_response(error),
        ContributeError::AlbumNotFound => ErrorResponseView::NotFound("Album not found"@),
        ContributeError::AlbumRepositoryError(error) => album_repository_error_response(error),
    }
}

/// The error answer for an error of looking an album up by slug.
pub open spec fn album_find_by_slug_error_response(value: FindBySlugError) -> ErrorResponseView {
    match value {
        FindBySlugError::AlbumNotFound => ErrorResponseView::NotFound("Album not found"@),
        FindBySlugError::RepositoryError(error) => album_repository_error_response(error),
    }
}

/// The error answer for an error of listing albums.
pub open spec fn album_find_by_error_response(value: FindByError) -> ErrorResponseView {
    match value {
        FindByError::RepositoryError(error) => album_repository_error_response(error),
    }
}

impl ErrorResponse {
    /// The error answer for an error of applying a change to an album.
    pub fn from_album_apply_changes_error(value: ApplyChangesError) -> (r: ErrorResponse)
        ensures
            r@ == album_apply_changes_error_response(value),
    {
        match value {
            ApplyChangesError::EntityIsNotAlbum => ErrorResponse::BadRequest("Entity is not an album".to_string(), None),
            ApplyChangesError::RepositoryError(error) => ErrorResponse::from_album_repository_error(error),
        }
    }

    /// The error answer for an error of an album repository.
    pub fn from_album_repository_error(value: RepositoryError) -> (r: ErrorResponse)
        ensures
            r@ == album_repository_error_response(value),
    {
        match value {
            RepositoryError::DatabaseError(error) => ErrorResponse::InternalServerError(error),
        }
    }

    /// The error answer for an error of contributing to an album.
    pub fn from_album_contribute_error(value: ContributeError) -> (r: ErrorResponse)
        ensures
            r@ == album_contribute_error_response(value),
    {
        match value {
            ContributeError::ActivityRepositoryError(error) => ErrorResponse::from_activity_repository_error(error),
            ContributeError::AlbumNotFound => ErrorResponse::NotFound("Album not found".to_string()),
            ContributeError::AlbumRepositoryError(error) => ErrorResponse::from_album_repository_error(error),
        }
    }

    /// The error answer for an error of looking an album up by slug.
    pub fn from_album_find_by_slug_error(value: FindBySlugError) -> (r: ErrorResponse)
        ensures
            r@ == album_find_by_slug_error_response(value),
    {
        match value {
            FindBySlugError::AlbumNotFound => ErrorResponse::NotFound("Album not found".to_string()),
            FindBySlugError::RepositoryError(error) => ErrorResponse::from_album_repository_error(error),
        }
    }

    /// The error answer for an error of listing albums.
    pub fn from_album_find_by_error(value: FindByError) -> (r: ErrorResponse)
        ensures
            r@ == album_find_by_error_response(value),
    {
        match value {
            FindByError::RepositoryError(error) => ErrorResponse::from_album_repository_error(error),
        }
    }
}

/// The fixed answers: each error that carries no message of its own is
/// answered with its own status and text.
pub proof fn album_errors_have_fixed_answers()
    ensures
        album_apply_changes_error_response(ApplyChangesError::EntityIsNotAlbum) == ErrorResponseView::BadRequest("Entity is not an album"@, None),
        album_contribute_error_response(ContributeError::AlbumNotFound) == ErrorResponseView::NotFound("Album not found"@),
        album_find_by_slug_error_response(FindBySlugError::AlbumNotFound) == ErrorResponseView::NotFound("Album not found"@),
{
}

} // verus!
