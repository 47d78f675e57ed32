use vstd::prelude::*;
use crate::domain::source::{ApplyChangesError, ContributeError, RepositoryError};
use crate::infra::actix::activity::error::activity_repository_error_response;
use crate::infra::actix::errors::{ErrorResponse, ErrorResponseView};

verus! {

broadcast use vstd::string::group_string_axioms;

/// The error answer for an error of applying a change to a source.
pub open spec fn source_apply_changes_error_response(value: ApplyChangesError) -> ErrorResponseView {
    match value {
        ApplyChangesError::RepositoryError(error) => source_repository_error_response(error),
    }
}

/// The error answer for an error of a source repository.
pub open spec fn source_repository_error_response(value: RepositoryError) -> ErrorResponseView {
    match value {
        RepositoryError::DatabaseError(error) => ErrorResponseView::InternalServerError(error@),
    }
}

/// The error answer for an error of contributing to a source.
pub open spec fn source_contribute_error_response(value: ContributeError) -> ErrorResponseView {
    match value {
        ContributeError::ActivityRepositoryError(error) => activity_repository_error_response(error),
        ContributeError::SourceNotFound => ErrorResponseView::NotFound("Source not found"@),
        ContributeError::SourceRepositoryError(error) => source_repository_error_response(error),
    }
}

impl ErrorResponse {
    /// The error answer for an error of applying a change to a source.
    pub fn from_source_apply_changes_error(value: ApplyChangesError) -> (r: ErrorResponse)
        ensures
            r@ == source_apply_changes_error_response(value),
    {
        match value {
            ApplyChangesError::RepositoryError(error) => ErrorResponse::from_source_repository_error(error),
        }
    }

    /// The error answer for an error of a source repository.
    pub fn from_source_repository_error(value: RepositoryError) -> (r: ErrorResponse)
        ensures
            r@ == source_repository_error_response(value),
    {
        match value {
            RepositoryError::DatabaseError(error) => ErrorResponse::InternalServerError(error),
        }
    }

    /// The error answer for an error of contributing to a source.
    pub fn from_source_contribute_error(value: ContributeError) -> (r: ErrorResponse)
        ensures
            r@ == source_contribute_error_response(value),
    {
        match value {
            ContributeError::ActivityRepositoryError(error) => ErrorResponse::from_activity_repository_error(error),
            ContributeError::SourceNotFound => ErrorResponse::NotFound("Source not found".to_string()),
            ContributeError::SourceRepositoryError(error) => ErrorResponse::from_source_repository_error(error),
        }
    }
}

/// The fixed answers: each error that carries no message of its own is
/// answered with its own status and text.
pub proof fn source_errors_have_fixed_answers()
    ensures
        source_contribute_error_response(ContributeError::SourceNotFound) == ErrorResponseView::NotFound("Source not found"@),
{
}

} // verus!
