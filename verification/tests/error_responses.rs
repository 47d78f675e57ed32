use api::domain::{activity, album, artist, genre, media, source};
use api::infra::actix::errors::ErrorResponse;

fn not_found(m: &str) -> ErrorResponse {
    ErrorResponse::NotFound(String::from(m))
}

fn internal(m: &str) -> ErrorResponse {
    ErrorResponse::InternalServerError(String::from(m))
}

fn bad_request(m: &str) -> ErrorResponse {
    ErrorResponse::BadRequest(String::from(m), None)
}

fn forbidden(m: &str) -> ErrorResponse {
    ErrorResponse::Forbidden(String::from(m))
}

#[test]
fn activity_errors() {
    assert_eq!(
        ErrorResponse::from_activity_repository_error(activity::RepositoryError::EntityNotFound),
        not_found("Activity not found")
    );
    assert_eq!(
        ErrorResponse::from_activity_repository_error(activity::RepositoryError::InternalServerError(String::from("db down"))),
        internal("db down")
    );
    assert_eq!(
        ErrorResponse::from_activity_error(activity::Error::ActivityIsNotPending),
        bad_request("Activity is not pending")
    );
}

#[test]
fn approve_errors() {

    assert_eq!(ErrorResponse::from_approve_error(activity::ApproveError::ActivityError(activity::Error::ActivityIsNotPending)), bad_request("Activity is not pending"));
    assert_eq!(ErrorResponse::from_approve_error(activity::ApproveError::ActivityNotFound), not_found("Activity not found"));
    assert_eq!(ErrorResponse::from_approve_error(activity::ApproveError::AlbumApplyError(album::ApplyChangesError::EntityIsNotAlbum)), bad_request("Entity is not an album"));
    assert_eq!(ErrorResponse::from_approve_error(activity::ApproveError::ArtistApplyError(artist::ApplyChangesError::EntityIsNotArtist)), bad_request("Entity is not an artist"));
    assert_eq!(ErrorResponse::from_approve_error(activity::ApproveError::GenreApplyError(genre::ApplyChangesError::EntityIsNotGenre)), bad_request("Entity is not a genre"));
    assert_eq!(ErrorResponse::from_approve_error(activity::ApproveError::RepositoryError(activity::RepositoryError::EntityNotFound)), not_found("Activity not found"));
    assert_eq!(ErrorResponse::from_approve_error(activity::ApproveError::UserIsNotACurator), forbidden("User is not a curator"));
    assert_eq!(
        ErrorResponse::from_approve_error(activity::ApproveError::MediaApplyError(media::ApplyChangesError::RepositoryError(media::RepositoryError::DatabaseError(String::from("x"))))),
        internal("x")
    );
}

#[test]
fn reject_errors() {

    assert_eq!(ErrorResponse::from_reject_error(activity::RejectError::ActivityError(activity::Error::ActivityIsNotPending)), bad_request("Activity is not pending"));
    assert_eq!(ErrorResponse::from_reject_error(activity::RejectError::ActivityNotFound), not_found("Activity not found"));
    assert_eq!(ErrorResponse::from_reject_error(activity::RejectError::ActivityRepositoryError(activity::RepositoryError::InternalServerError(String::from("e")))), internal("e"));
    assert_eq!(ErrorResponse::from_reject_error(activity::RejectError::UserIsNotACurator), forbidden("User is not a curator"));
}

#[test]
fn album_errors() {
    let db = || album::RepositoryError::DatabaseError(String::from("boom"));
    assert_eq!(ErrorResponse::from_album_repository_error(db()), internal("boom"));
    assert_eq!(ErrorResponse::from_album_apply_changes_error(album::ApplyChangesError::EntityIsNotAlbum), bad_request("Entity is not an album"));
    assert_eq!(ErrorResponse::from_album_apply_changes_error(album::ApplyChangesError::RepositoryError(db())), internal("boom"));
    assert_eq!(ErrorResponse::from_album_contribute_error(album::ContributeError::AlbumNotFound), not_found("Album not found"));
    assert_eq!(ErrorResponse::from_album_contribute_error(album::ContributeError::AlbumRepositoryError(db())), internal("boom"));
    assert_eq!(
        ErrorResponse::from_album_contribute_error(album::ContributeError::ActivityRepositoryError(activity::RepositoryError::EntityNotFound)),
        not_found("Activity not found")
    );
    assert_eq!(ErrorResponse::from_album_find_by_slug_error(album::FindBySlugError::AlbumNotFound), not_found("Album not found"));
    assert_eq!(ErrorResponse::from_album_find_by_slug_error(album::FindBySlugError::RepositoryError(db())), internal("boom"));
    assert_eq!(ErrorResponse::from_album_find_by_error(album::FindByError::RepositoryError(db())), internal("boom"));
}

#[test]
fn artist_errors() {
    assert_eq!(
        ErrorResponse::from_artist_repository_error(artist::RepositoryError::Conflict(String::from("slug taken"))),
        ErrorResponse::Conflict(String::from("slug taken"))
    );
    assert_eq!(ErrorResponse::from_artist_repository_error(artist::RepositoryError::DatabaseError(String::from("d"))), internal("d"));
    assert_eq!(ErrorResponse::from_artist_contribute_error(artist::ContributeError::ArtistNotFound), not_found("Artist not found"));
    assert_eq!(
        ErrorResponse::from_artist_contribute_error(artist::ContributeError::ArtistRepositoryError(artist::RepositoryError::Conflict(String::from("c")))),
        ErrorResponse::Conflict(String::from("c"))
    );
    assert_eq!(
        ErrorResponse::from_artist_contribute_error(artist::ContributeError::ActivityRepositoryError(activity::RepositoryError::EntityNotFound)),
        not_found("Activity not found")
    );
    assert_eq!(ErrorResponse::from_artist_apply_changes_error(artist::ApplyChangesError::EntityIsNotArtist), bad_request("Entity is not an artist"));
    assert_eq!(
        ErrorResponse::from_artist_apply_changes_error(artist::ApplyChangesError::RepositoryError(artist::RepositoryError::DatabaseError(String::from("d")))),
        internal("d")
    );
    assert_eq!(ErrorResponse::from_artist_find_by_slug_error(artist::FindBySlugError::ArtistNotFound), not_found("Artist not found"));
    assert_eq!(
        ErrorResponse::from_artist_find_by_slug_error(artist::FindBySlugError::RepositoryError(artist::RepositoryError::DatabaseError(String::from("d")))),
        internal("d")
    );
}

#[test]
fn genre_errors() {
    assert_eq!(ErrorResponse::from_genre_error(genre::Error::DatabaseError(String::from("g"))), internal("g"));
    assert_eq!(ErrorResponse::from_genre_contribute_error(genre::ContributeError::GenreNotFound), not_found("Genre not found"));
    assert_eq!(ErrorResponse::from_genre_contribute_error(genre::ContributeError::GenreRepositoryError(genre::Error::DatabaseError(String::from("g")))), internal("g"));
    assert_eq!(
        ErrorResponse::from_genre_contribute_error(genre::ContributeError::ActivityRepositoryError(activity::RepositoryError::EntityNotFound)),
        not_found("Activity not found")
    );
    assert_eq!(ErrorResponse::from_genre_apply_changes_error(genre::ApplyChangesError::EntityIsNotGenre), bad_request("Entity is not a genre"));
    assert_eq!(ErrorResponse::from_genre_apply_changes_error(genre::ApplyChangesError::RepositoryError(genre::Error::DatabaseError(String::from("g")))), internal("g"));
}

#[test]
fn media_errors() {
    assert_eq!(ErrorResponse::from_media_repository_error(media::RepositoryError::DatabaseError(String::from("m"))), internal("m"));
    assert_eq!(
        ErrorResponse::from_media_apply_changes_error(media::ApplyChangesError::AlbumRepositoryError(album::RepositoryError::DatabaseError(String::from("a")))),
        internal("a")
    );
    assert_eq!(
        ErrorResponse::from_media_apply_changes_error(media::ApplyChangesError::RepositoryError(media::RepositoryError::DatabaseError(String::from("m")))),
        internal("m")
    );
    assert_eq!(ErrorResponse::from_media_contribute_error(media::ContributeError::MediaNotFound), not_found("Media not found"));
    assert_eq!(
        ErrorResponse::from_media_contribute_error(media::ContributeError::MediaRepositoryError(media::RepositoryError::DatabaseError(String::from("m")))),
        internal("m")
    );
    assert_eq!(
        ErrorResponse::from_media_contribute_error(media::ContributeError::ActivityRepositoryError(activity::RepositoryError::EntityNotFound)),
        not_found("Activity not found")
    );
}

#[test]
fn source_errors() {
    assert_eq!(ErrorResponse::from_source_repository_error(source::RepositoryError::DatabaseError(String::from("s"))), internal("s"));
    assert_eq!(
        ErrorResponse::from_source_apply_changes_error(source::ApplyChangesError::RepositoryError(source::RepositoryError::DatabaseError(String::from("s")))),
        internal("s")
    );
    assert_eq!(ErrorResponse::from_source_contribute_error(source::ContributeError::SourceNotFound), not_found("Source not found"));
    assert_eq!(
        ErrorResponse::from_source_contribute_error(source::ContributeError::SourceRepositoryError(source::RepositoryError::DatabaseError(String::from("s")))),
        internal("s")
    );
    assert_eq!(
        ErrorResponse::from_source_contribute_error(source::ContributeError::ActivityRepositoryError(activity::RepositoryError::InternalServerError(String::from("i")))),
        internal("i")
    );
}

#[test]
fn wrapping_errors_answer_as_what_they_wrap() {
    let inner = || album::RepositoryError::DatabaseError(String::from("timeout"));
    let direct = ErrorResponse::from_album_repository_error(inner());
    assert_eq!(direct, internal("timeout"));
    assert_eq!(
        ErrorResponse::from_approve_error(activity::ApproveError::MediaApplyError(
            media::ApplyChangesError::AlbumRepositoryError(inner())
        )),
        direct
    );
    assert_eq!(
        ErrorResponse::from_reject_error(activity::RejectError::ActivityRepositoryError(
            activity::RepositoryError::EntityNotFound
        )),
        ErrorResponse::from_activity_repository_error(activity::RepositoryError::EntityNotFound)
    );
    assert_eq!(
        ErrorResponse::from_artist_repository_error(artist::RepositoryError::Conflict(String::from("slug taken"))),
        ErrorResponse::Conflict(String::from("slug taken"))
    );
}
