use vstd::prelude::*;
use crate::domain::{activity, album, artist, genre, media, source};
use crate::infra::actix::errors::ErrorResponseView;

verus! {

/// Every error that wraps the error of another step is answered as the error
/// it wraps: an approval, a rejection, a contribution, an application of
/// changes or a lookup that failed in a repository or in another step gives
/// the same HTTP answer as that failure itself.
pub proof fn wrapped_errors_answer_as_their_cause(
    activity_error: activity::Error,
    activity_repository: activity::RepositoryError,
    album_apply: album::ApplyChangesError,
    album_repository: album::RepositoryError,
    artist_apply: artist::ApplyChangesError,
    artist_repository: artist::RepositoryError,
    genre_apply: genre::ApplyChangesError,
    genre_repository: genre::Error,
    media_apply: media::ApplyChangesError,
    media_repository: media::RepositoryError,
    source_repository: source::RepositoryError,
)
    ensures
        crate::infra::actix::activity::error::approve_error_response(activity::ApproveError::ActivityError(activity_error))
            == crate::infra::actix::activity::error::activity_error_response(activity_error),
        crate::infra::actix::activity::error::approve_error_response(activity::ApproveError::RepositoryError(activity_repository))
            == crate::infra::actix::activity::error::activity_repository_error_response(activity_repository),
        crate::infra::actix::activity::error::approve_error_response(activity::ApproveError::AlbumApplyError(album_apply))
            == crate::infra::actix::album::error::album_apply_changes_error_response(album_apply),
        crate::infra::actix::activity::error::approve_error_response(activity::ApproveError::ArtistApplyError(artist_apply))
            == crate::infra::actix::artist::error::artist_apply_changes_error_response(artist_apply),
        crate::infra::actix::activity::error::approve_error_response(activity::ApproveError::GenreApplyError(genre_apply))
            == crate::infra::actix::genre::error::genre_apply_changes_error_response(genre_apply),
        crate::infra::actix::activity::error::approve_error_response(activity::ApproveError::MediaApplyError(media_apply))
            == crate::infra::actix::media::error::media_apply_changes_error_response(media_apply),
        crate::infra::actix::activity::error::reject_error_response(activity::RejectError::ActivityError(activity_error))
            == crate::infra::actix::activity::error::activity_error_response(activity_error),
        crate::infra::actix::activity::error::reject_error_response(activity::RejectError::ActivityRepositoryError(activity_repository))
            == crate::infra::actix::activity::error::activity_repository_error_response(activity_repository),
        crate::infra::actix::album::error::album_contribute_error_response(album::ContributeError::ActivityRepositoryError(activity_repository))
            == crate::infra::actix::activity::error::activity_repository_error_response(activity_repository),
        crate::infra::actix::album::error::album_contribute_error_response(album::ContributeError::AlbumRepositoryError(album_repository))
            == crate::infra::actix::album::error::album_repository_error_response(album_repository),
        crate::infra::actix::artist::error::artist_contribute_error_response(artist::ContributeError::ActivityRepositoryError(activity_repository))
            == crate::infra::actix::activity::error::activity_repository_error_response(activity_repository),
        crate::infra::actix::artist::error::artist_contribute_error_response(artist::ContributeError::ArtistRepositoryError(artist_repository))
            == crate::infra::actix::artist::error::artist_repository_error_response(artist_repository),
        crate::infra::actix::genre::error::genre_contribute_error_response(genre::ContributeError::ActivityRepositoryError(activity_repository))
            == crate::infra::actix::activity::error::activity_repository_error_response(activity_repository),
        crate::infra::actix::genre::error::genre_contribute_error_response(genre::ContributeError::GenreRepositoryError(genre_repository))
            == crate::infra::actix::genre::error::genre_error_response(genre_repository),
        crate::infra::actix::media::error::media_contribute_error_response(media::ContributeError::ActivityRepositoryError(activity_repository))
            == crate::infra::actix::activity::error::activity_repository_error_response(activity_repository),
        crate::infra::actix::media::error::media_contribute_error_response(media::ContributeError::MediaRepositoryError(media_repository))
            == crate::infra::actix::media::error::media_repository_error_response(media_repository),
        crate::infra::actix::source::error::source_contribute_error_response(source::ContributeError::ActivityRepositoryError(activity_repository))
            == crate::infra::actix::activity::error::activity_repository_error_response(activity_repository),
        crate::infra::actix::source::error::source_contribute_error_response(source::ContributeError::SourceRepositoryError(source_repository))
            == crate::infra::actix::source::error::source_repository_error_response(source_repository),
        crate::infra::actix::album::error::album_apply_changes_error_response(album::ApplyChangesError::RepositoryError(album_repository))
            == crate::infra::actix::album::error::album_repository_error_response(album_repository),
        crate::infra::actix::artist::error::artist_apply_changes_error_response(artist::ApplyChangesError::RepositoryError(artist_repository))
            == crate::infra::actix::artist::error::artist_repository_error_response(artist_repository),
        crate::infra::actix::genre::error::genre_apply_changes_error_response(genre::ApplyChangesError::RepositoryError(genre_repository))
            == crate::infra::actix::genre::error::genre_error_response(genre_repository),
        crate::infra::actix::media::error::media_apply_changes_error_response(media::ApplyChangesError::AlbumRepositoryError(album_repository))
            == crate::infra::actix::album::error::album_repository_error_response(album_repository),
        crate::infra::actix::media::error::media_apply_changes_error_response(media::ApplyChangesError::RepositoryError(media_repository))
            == crate::infra::actix::media::error::media_repository_error_response(media_repository),
        crate::infra::actix::source::error::source_apply_changes_error_response(source::ApplyChangesError::RepositoryError(source_repository))
            == crate::infra::actix::source::error::source_repository_error_response(source_repository),
        crate::infra::actix::album::error::album_find_by_slug_error_response(album::FindBySlugError::RepositoryError(album_repository))
            == crate::infra::actix::album::error::album_repository_error_response(album_repository),
        crate::infra::actix::album::error::album_find_by_error_response(album::FindByError::RepositoryError(album_repository))
            == crate::infra::actix::album::error::album_repository_error_response(album_repository),
        crate::infra::actix::artist::error::artist_find_by_slug_error_response(artist::FindBySlugError::RepositoryError(artist_repository))
            == crate::infra::actix::artist::error::artist_repository_error_response(artist_repository),
{
}

/// A repository's database failure is answered as an internal server error
/// that carries the failure's message, for every entity, and an artist that
/// conflicts with a stored one is answered as a conflict with its message.
pub proof fn database_failures_answer_internal_server_error(message: String)
    ensures
        crate::infra::actix::activity::error::activity_repository_error_response(activity::RepositoryError::InternalServerError(message))
            == ErrorResponseView::InternalServerError(message@),
        crate::infra::actix::album::error::album_repository_error_response(album::RepositoryError::DatabaseError(message))
            == ErrorResponseView::InternalServerError(message@),
        crate::infra::actix::artist::error::artist_repository_error_response(artist::RepositoryError::DatabaseError(message))
            == ErrorResponseView::InternalServerError(message@),
        crate::infra::actix::genre::error::genre_error_response(genre::Error::DatabaseError(message))
            == ErrorResponseView::InternalServerError(message@),
        crate::infra::actix::media::error::media_repository_error_response(media::RepositoryError::DatabaseError(message))
            == ErrorResponseView::InternalServerError(message@),
        crate::infra::actix::source::error::source_repository_error_response(source::RepositoryError::DatabaseError(message))
            == ErrorResponseView::InternalServerError(message@),
        crate::infra::actix::artist::error::artist_repository_error_response(artist::RepositoryError::Conflict(message))
            == ErrorResponseView::Conflict(message@),
{
}

} // verus!
