use vstd::prelude::*;
use crate::domain::album::Album;
use crate::domain::artist::Artist;
use crate::domain::genre::Genre;
use crate::domain::media::{CreateMediaInput, Media};
use crate::domain::source::Source;
use crate::domain::user::User;
use crate::infra::actix::album::presenter::{album_presenter_of, AlbumPresenter};
use crate::infra::actix::artist::presenter::artist_presenter_of;
use crate::infra::actix::genre::presenter::genre_presenter_of;
use crate::infra::actix::media::dto::{CreateMediaDTO, MediaPresenter, UpdateMediaDto};
use crate::infra::actix::source::dto::SourcePresenter;
use crate::infra::actix::user::presenters::public_user_of;

verus! {

/// An album is shown with each of its own fields under the same name: its
/// identifier, name, slug, cover, parental rating, release date and times.
pub proof fn album_is_shown_field_for_field(a: Album)
    ensures
        album_presenter_of(a).id == a.id,
        album_presenter_of(a).name == a.name,
        album_presenter_of(a).slug == a.slug,
        album_presenter_of(a).cover == a.cover,
        album_presenter_of(a).parental_rating == a.parental_rating,
        album_presenter_of(a).release_date == a.release_date,
        album_presenter_of(a).created_at == a.created_at,
        album_presenter_of(a).updated_at == a.updated_at,
        <AlbumPresenter as vstd::std_specs::convert::FromSpec<Album>>::from_spec(a) == album_presenter_of(a),
{
}

/// An artist is shown with the text of its identifier, its name, slug and
/// country.
pub proof fn artist_is_shown_field_for_field(a: Artist)
    ensures
        artist_presenter_of(a).id == a.id.0,
        artist_presenter_of(a).name == a.name,
        artist_presenter_of(a).slug == a.slug,
        artist_presenter_of(a).country == a.country,
{
}

/// A genre is shown with its identifier, name and slug.
pub proof fn genre_is_shown_field_for_field(g: Genre)
    ensures
        genre_presenter_of(g).id == g.id,
        genre_presenter_of(g).name == g.name,
        genre_presenter_of(g).slug == g.slug,
{
}

/// A user is shown to anyone with the text of its identifier, its name,
/// whether it is a curator and when it joined, and nothing else.
pub proof fn user_is_shown_field_for_field(u: User)
    ensures
        public_user_of(u).id == u.id.0,
        public_user_of(u).username == u.username,
        public_user_of(u).is_curator == u.is_curator,
        public_user_of(u).created_at == u.created_at,
{
}

/// A media is shown with each of its own fields under the same name.
pub proof fn media_is_shown_field_for_field(m: Media)
    ensures
        ({
            let r = <MediaPresenter as vstd::std_specs::convert::FromSpec<Media>>::from_spec(m);
            &&& r.id == m.id
            &&& r.name == m.name
            &&& r.media_type == m.media_type
            &&& r.slug == m.slug
            &&& r.release_date == m.release_date
            &&& r.cover == m.cover
            &&& r.parental_rating == m.parental_rating
            &&& r.genre_ids == m.genre_ids
            &&& r.composer_ids == m.composer_ids
            &&& r.interpreter_ids == m.interpreter_ids
            &&& r.album_ids == m.album_ids
            &&& r.is_single == m.is_single
            &&& r.created_at == m.created_at
            &&& r.updated_at == m.updated_at
        }),
{
}

/// A source is shown with its identifier, type and address.
pub proof fn source_is_shown_field_for_field(s: Source)
    ensures
        ({
            let r = <SourcePresenter as vstd::std_specs::convert::FromSpec<Source>>::from_spec(s);
            r.id == s.id && r.source_type == s.source_type && r.src == s.src
        }),
{
}

/// A request to create a media becomes the input of the contribution with
/// each of its fields unchanged under the same name.
pub proof fn create_media_request_is_kept_field_for_field(d: CreateMediaDTO)
    ensures
        ({
            let r = <CreateMediaInput as vstd::std_specs::convert::FromSpec<CreateMediaDTO>>::from_spec(d);
            &&& r.name == d.name
            &&& r.slug == d.slug
            &&& r.media_type == d.media_type
            &&& r.release_date == d.release_date
            &&& r.cover == d.cover
            &&& r.parental_rating == d.parental_rating
            &&& r.genre_ids == d.genre_ids
            &&& r.composer_ids == d.composer_ids
            &&& r.interpreter_ids == d.interpreter_ids
            &&& r.album_ids == d.album_ids
            &&& r.is_single == d.is_single
        }),
{
}

/// A request to change a media becomes the changes of the contribution with
/// each of its fields unchanged under the same name.
pub proof fn update_media_request_is_kept_field_for_field(d: UpdateMediaDto)
    ensures
        ({
            let r = <crate::domain::media::Changes as vstd::std_specs::convert::FromSpec<UpdateMediaDto>>::from_spec(d);
            &&& r.name == d.name
            &&& r.media_type == d.media_type
            &&& r.slug == d.slug
            &&& r.release_date == d.release_date
            &&& r.cover == d.cover
            &&& r.genre_ids == d.genre_ids
            &&& r.parental_rating == d.parental_rating
            &&& r.composer_ids == d.composer_ids
            &&& r.interpreter_ids == d.interpreter_ids
            &&& r.album_ids == d.album_ids
            &&& r.is_single == d.is_single
        }),
{
}

/// The requests to create or change an artist, a genre or a source become
/// the contribution's input with each field unchanged under the same name.
pub proof fn other_requests_are_kept_field_for_field(
    artist: crate::infra::actix::artist::dto::CreateArtistDTO,
    artist_changes: crate::infra::actix::artist::dto::UpdateArtistDto,
    genre: crate::infra::actix::genre::dto::CreateGenreDTO,
    genre_changes: crate::infra::actix::genre::dto::UpdateGenreDto,
    source: crate::infra::actix::source::dto::CreateSourceDTO,
)
    ensures
        ({
            let r = <crate::domain::artist::CreateArtistInput as vstd::std_specs::convert::FromSpec<crate::infra::actix::artist::dto::CreateArtistDTO>>::from_spec(artist);
            r.name == artist.name && r.country == artist.country && r.slug == artist.slug
        }),
        ({
            let r = <crate::domain::artist::Changes as vstd::std_specs::convert::FromSpec<crate::infra::actix::artist::dto::UpdateArtistDto>>::from_spec(artist_changes);
            r.name == artist_changes.name && r.country == artist_changes.country && r.slug == artist_changes.slug
        }),
        ({
            let r = <crate::domain::genre::CreateGenreInput as vstd::std_specs::convert::FromSpec<crate::infra::actix::genre::dto::CreateGenreDTO>>::from_spec(genre);
            r.name == genre.name && r.parent_id == genre.parent_id && r.slug == genre.slug
        }),
        ({
            let r = <crate::domain::genre::Changes as vstd::std_specs::convert::FromSpec<crate::infra::actix::genre::dto::UpdateGenreDto>>::from_spec(genre_changes);
            r.name == genre_changes.name && r.parent_id == genre_changes.parent_id && r.slug == genre_changes.slug
        }),
        ({
            let r = <crate::domain::source::CreateSourceInput as vstd::std_specs::convert::FromSpec<crate::infra::actix::source::dto::CreateSourceDTO>>::from_spec(source);
            r.src == source.src && r.media_id == source.media_id && r.source_type == source.source_type
        }),
{
}

} // verus!
