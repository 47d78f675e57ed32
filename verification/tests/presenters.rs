use api::domain::artist::{self, Artist, CreateArtistInput};
use api::domain::genre::{self, CreateGenreInput, Genre, GenreAggregate};
use api::domain::source::{CreateSourceInput, Source, SourceType};
use api::infra::actix::artist::dto::{ArtistPresenter, CreateArtistDTO, UpdateArtistDto};
use api::infra::actix::genre::dto::{CreateGenreDTO, UpdateGenreDto};
use api::infra::actix::genre::presenter::{GenreAggregatePresenter, GenrePresenter};
use api::infra::actix::source::dto::{CreateSourceDTO, SourcePresenter};
use api::shared::paged::Paged;
use api::shared::vo::{Slug, UUID4};

fn artist(id: &str, name: &str) -> Artist {
    Artist {
        id: UUID4(String::from(id)),
        name: String::from(name),
        slug: Slug::new(name).unwrap(),
        country: Some(String::from("BR")),
        created_at: 1,
        updated_at: 2,
    }
}

fn genre(id: &str, name: &str) -> Genre {
    Genre {
        id: UUID4(String::from(id)),
        name: String::from(name),
        slug: Slug::new(name).unwrap(),
        parent_id: None,
        created_at: 1,
        updated_at: 2,
    }
}

#[test]
fn artist_presenter_shows_id_name_slug_country() {
    let p = ArtistPresenter::from(artist("id-1", "samba"));
    assert_eq!(
        p,
        ArtistPresenter {
            id: String::from("id-1"),
            name: String::from("samba"),
            slug: Slug::new("samba").unwrap(),
            country: Some(String::from("BR")),
        }
    );
}

#[test]
fn paged_artists_are_presented_in_order() {
    let page = Paged { items: vec![artist("1", "a"), artist("2", "b")], total_items: 12, total_pages: 6, page: 1 };
    let presented = ArtistPresenter::paged(page);
    assert_eq!(presented.items.len(), 2);
    assert_eq!(presented.items[0].id, "1");
    assert_eq!(presented.items[1].name, "b");
    assert_eq!((presented.total_items, presented.total_pages, presented.page), (12, 6, 1));
}

#[test]
fn create_artist_dto_becomes_input() {
    let dto = CreateArtistDTO { name: String::from("n"), slug: None, country: Some(String::from("BR")) };
    let input = CreateArtistInput::from(dto);
    assert_eq!(input, CreateArtistInput { name: String::from("n"), country: Some(String::from("BR")), slug: None });
}

#[test]
fn update_artist_dto_becomes_changes() {
    let dto = UpdateArtistDto { name: Some(String::from("x")), slug: Some(Slug::new("x").unwrap()), country: None };
    let changes = artist::Changes::from(dto);
    assert_eq!(changes, artist::Changes { name: Some(String::from("x")), country: None, slug: Some(Slug::new("x").unwrap()) });
}

#[test]
fn genre_dtos_become_inputs_and_changes() {
    let parent = UUID4(String::from("p"));
    let input = CreateGenreInput::from(CreateGenreDTO { name: String::from("g"), slug: None, parent_id: Some(parent.clone()) });
    assert_eq!(input, CreateGenreInput { name: String::from("g"), parent_id: Some(parent), slug: None });
    let changes = genre::Changes::from(UpdateGenreDto { name: None, parent_id: Some(None), slug: None });
    assert_eq!(changes, genre::Changes { name: None, parent_id: Some(None), slug: None });
}

#[test]
fn genre_presenters() {
    let p = GenrePresenter::from(genre("g1", "rock"));
    assert_eq!(p, GenrePresenter { id: UUID4(String::from("g1")), name: String::from("rock"), slug: Slug::new("rock").unwrap() });
    let aggregate = GenreAggregate { genre: genre("g1", "rock"), related: vec![genre("g2", "punk"), genre("g3", "metal")] };
    let ap = GenreAggregatePresenter::from(aggregate);
    assert_eq!(ap.genre.name, "rock");
    assert_eq!(ap.related.len(), 2);
    assert_eq!(ap.related[0].name, "punk");
    assert_eq!(ap.related[1].id, UUID4(String::from("g3")));
    let page = GenrePresenter::paged(Paged { items: vec![genre("g2", "punk")], total_items: 1, total_pages: 1, page: 1 });
    assert_eq!(page.items[0].slug, Slug::new("punk").unwrap());
}

#[test]
fn source_dto_and_presenter() {
    let input = CreateSourceInput::from(CreateSourceDTO {
        src: String::from("https://www.youtube.com/watch?v=VHA2ASr8rmY"),
        media_id: UUID4(String::from("m")),
        source_type: SourceType::Youtube,
    });
    assert_eq!(input.src, "https://www.youtube.com/watch?v=VHA2ASr8rmY");
    let source = Source {
        id: UUID4(String::from("s")),
        source_type: SourceType::Youtube,
        src: String::from("u"),
        media_id: UUID4(String::from("m")),
        created_at: 0,
        updated_at: 0,
    };
    assert_eq!(
        SourcePresenter::from(source),
        SourcePresenter { id: UUID4(String::from("s")), source_type: SourceType::Youtube, src: String::from("u") }
    );
}
