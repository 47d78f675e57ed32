use api::shared::vo::IdSet;
use api::domain::album::{Album, AlbumAggregate};
use api::domain::artist::Artist;
use api::domain::media::{self, CreateMediaInput, Media, MediaAggregate};
use api::domain::user::User;
use api::infra::actix::album::presenter::{AlbumAggregatePresenter, AlbumPresenter};
use api::infra::actix::media::dto::{CreateMediaDTO, MediaPresenter, UpdateMediaDto};
use api::infra::actix::media::presenter::MediaAggregatePresenter;
use api::infra::actix::user::presenters::PublicUserPresenter;
use api::shared::paged::Paged;
use api::shared::vo::{Date, Slug, UUID4};

fn id(s: &str) -> UUID4 {
    UUID4(String::from(s))
}

fn artist(i: &str) -> Artist {
    Artist {
        id: id(i),
        name: format!("artist {}", i),
        slug: Slug::new(i).unwrap(),
        country: None,
        created_at: 0,
        updated_at: 0,
    }
}

fn album() -> Album {
    Album {
        id: id("al"),
        name: String::from("test_album"),
        album_type: String::from("single"),
        slug: Slug::new("test_album").unwrap(),
        cover: Some(String::from("test_cover")),
        parental_rating: 16,
        release_date: Some(Date { year: 2021, month: 1, day: 1 }),
        artist_ids: IdSet::from_vec(vec![id("a1")]),
        created_at: 10,
        updated_at: 20,
    }
}

fn media() -> Media {
    Media {
        id: id("m1"),
        name: String::from("Teste"),
        media_type: String::from("Song"),
        slug: Slug::new("test_create_media_media").unwrap(),
        release_date: None,
        cover: None,
        parental_rating: 0,
        genre_ids: IdSet::from_vec(vec![id("g1")]),
        composer_ids: IdSet::from_vec(vec![id("c1")]),
        interpreter_ids: IdSet::from_vec(vec![id("i1")]),
        album_ids: IdSet::from_vec(vec![id("al")]),
        is_single: true,
        created_at: 1,
        updated_at: 2,
    }
}

#[test]
fn album_presenter_copies_the_shown_fields() {
    let p = AlbumPresenter::from(album());
    assert_eq!(p.id, id("al"));
    assert_eq!(p.cover, Some(String::from("test_cover")));
    assert_eq!(p.parental_rating, 16);
    assert_eq!(p.release_date, Some(Date { year: 2021, month: 1, day: 1 }));
    assert_eq!((p.created_at, p.updated_at), (10, 20));
}

#[test]
fn album_aggregate_presents_its_artists() {
    let p = AlbumAggregatePresenter::from(AlbumAggregate { album: album(), artists: vec![artist("a1"), artist("a2")] });
    assert_eq!(p.name, "test_album");
    assert_eq!(p.artists.len(), 2);
    assert_eq!(p.artists[1].id, "a2");
}

#[test]
fn media_presenter_and_dtos() {
    let p = MediaPresenter::from(media());
    assert_eq!(p.genre_ids.to_vec(), vec![id("g1")]);
    assert!(p.is_single);
    let input = CreateMediaInput::from(CreateMediaDTO {
        name: String::from("Teste"),
        interpreter_ids: IdSet::from_vec(vec![id("i1")]),
        ..CreateMediaDTO::default()
    });
    assert_eq!(input.interpreter_ids.to_vec(), vec![id("i1")]);
    assert_eq!(input.name, "Teste");
    let changes = media::Changes::from(UpdateMediaDto { cover: Some(None), ..UpdateMediaDto::default() });
    assert_eq!(changes.cover, Some(None));
    assert_eq!(changes.name, None);
}

#[test]
fn media_aggregates_are_presented_in_order() {
    let first = MediaAggregate { media: media(), composers: vec![artist("c1")], interpreters: vec![], sources: vec![] };
    let mut second_media = media();
    second_media.id = id("m2");
    let second = MediaAggregate { media: second_media, composers: vec![], interpreters: vec![artist("i1"), artist("i2")], sources: vec![] };
    let page = MediaAggregatePresenter::paged(Paged { items: vec![first, second], total_items: 7, total_pages: 4, page: 2 });
    assert_eq!(page.items.len(), 2);
    assert_eq!(page.items[0].id, id("m1"));
    assert_eq!(page.items[0].composers[0].id, "c1");
    assert_eq!(page.items[1].id, id("m2"));
    assert_eq!(page.items[1].interpreters.len(), 2);
    assert_eq!((page.total_items, page.total_pages, page.page), (7, 4, 2));
}

#[test]
fn public_user_presenter() {
    let user = User { id: id("u1"), username: String::from("ana"), is_curator: true, created_at: 1_700_000_000 };
    let p = PublicUserPresenter::from(user);
    assert_eq!(p, PublicUserPresenter { id: String::from("u1"), username: String::from("ana"), is_curator: true, created_at: 1_700_000_000 });
    let page = PublicUserPresenter::paged(Paged {
        items: vec![User { id: id("u2"), username: String::from("bo"), is_curator: false, created_at: 5 }],
        total_items: 1,
        total_pages: 1,
        page: 1,
    });
    assert_eq!(page.items[0].username, "bo");
}
