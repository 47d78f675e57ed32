use api::shared::vo::IdSet;
use api::domain::activity::{Activity, ActivityStatus};
use api::domain::album::Album;
use api::domain::artist::Artist;
use api::domain::genre::Genre;
use api::infra::in_memory::{
    InMemoryActivityRepository, InMemoryAlbumRepository, InMemoryArtistRepository,
    InMemoryGenreRepository,
};
use api::shared::vo::contribution::Contribution;
use api::shared::vo::{Slug, UUID4};

fn artist(id: &str, slug: &str) -> Artist {
    Artist {
        id: UUID4(String::from(id)),
        name: String::from("name"),
        slug: Slug::new(slug).unwrap(),
        country: Some(String::from("BR")),
        created_at: 1_700_000_000,
        updated_at: 1_700_000_000,
    }
}

#[test]
fn artist_repository_test_find_by_slug() {
    let artist = artist("8115d6e2-e15f-42dc-8858-edd305805a7d", "slug");
    let mut repo = InMemoryArtistRepository::new();
    repo.create(&artist).unwrap();
    let result = repo.find_by_slug(&artist.slug).unwrap();
    assert_eq!(result, Some(artist));
}

#[test]
fn test_find_by_slug_not_found() {
    let artist = artist("8115d6e2-e15f-42dc-8858-edd305805a7d", "slug");
    let mut repo = InMemoryArtistRepository::new();
    let result = repo.find_by_slug(&artist.slug).expect("Error finding artist");
    assert_eq!(result, None);
}

#[test]
fn artist_repository_test_create() {
    let artist = artist("8115d6e2-e15f-42dc-8858-edd305805a7d", "slug");
    let mut repo = InMemoryArtistRepository::new();
    let result = repo.create(&artist).expect("Error creating artist");
    assert_eq!(result.id, artist.id);
}

#[test]
fn artist_repository_test_update() {
    let artist = artist("8115d6e2-e15f-42dc-8858-edd305805a7d", "slug");
    let mut repo = InMemoryArtistRepository::new();
    repo.create(&artist).unwrap();
    let result = repo.update(&artist).expect("Error updating artist");
    assert_eq!(result, artist);
}

#[test]
fn artist_repository_test_find_by_id() {
    let artist = artist("8115d6e2-e15f-42dc-8858-edd305805a7d", "slug");
    let mut repo = InMemoryArtistRepository::new();
    repo.create(&artist).unwrap();
    let result = repo.find_by_id(&artist.id).expect("Error finding artist");
    assert_eq!(result, Some(artist));
}

#[test]
fn artist_update_replaces_the_stored_artist() {
    let mut repo = InMemoryArtistRepository::new();
    let first = artist("a1", "first");
    repo.create(&first).unwrap();
    let mut renamed = first.clone();
    renamed.name = String::from("renamed");
    repo.update(&renamed).unwrap();
    assert_eq!(repo.find_by_id(&first.id).unwrap(), Some(renamed));
}

#[test]
fn artist_delete_then_find_gives_nothing() {
    let mut repo = InMemoryArtistRepository::new();
    let a = artist("a1", "first");
    let b = artist("b2", "second");
    repo.create(&a).unwrap();
    repo.create(&b).unwrap();
    repo.delete_by_id(&a.id).unwrap();
    assert_eq!(repo.find_by_id(&a.id).unwrap(), None);
    assert_eq!(repo.find_by_id(&b.id).unwrap(), Some(b.clone()));
    assert_eq!(repo.find_by_slug(&a.slug).unwrap(), None);
    assert_eq!(repo.find_by_slug(&b.slug).unwrap(), Some(b));
}

#[test]
fn artist_delete_of_unknown_id_changes_nothing() {
    let mut repo = InMemoryArtistRepository::new();
    let a = artist("a1", "first");
    repo.create(&a).unwrap();
    repo.delete_by_id(&UUID4(String::from("missing"))).unwrap();
    assert_eq!(repo.find_by_id(&a.id).unwrap(), Some(a));
}

#[test]
fn genre_repository_round_trip() {
    let mut repo = InMemoryGenreRepository::new();
    let genre = Genre {
        id: UUID4(String::from("698db80e-6d0e-4768-8a55-f9ff966f2523")),
        name: String::from("Test"),
        slug: Slug::new("test_create_genre").unwrap(),
        parent_id: None,
        created_at: 0,
        updated_at: 0,
    };
    repo.create(&genre).unwrap();
    assert_eq!(repo.find_by_id(&genre.id).unwrap(), Some(genre.clone()));
    let mut changed = genre.clone();
    changed.name = String::from("Test 2");
    changed.slug = Slug::new("test_update_genre2").unwrap();
    repo.update(&changed).unwrap();
    assert_eq!(repo.find_by_id(&genre.id).unwrap(), Some(changed));
    repo.delete_by_id(&genre.id).unwrap();
    assert_eq!(repo.find_by_id(&genre.id).unwrap(), None);
}

#[test]
fn album_repository_round_trip() {
    let mut repo = InMemoryAlbumRepository::new();
    let album = Album {
        id: UUID4(String::from("09c227b6-7498-4f63-b17c-11b7fe4e9c77")),
        name: String::from("test_album"),
        album_type: String::from("album"),
        slug: Slug::new("test-album").unwrap(),
        cover: None,
        parental_rating: 16,
        release_date: None,
        artist_ids: IdSet::from_vec(vec![UUID4(String::from("8115d6e2-e15f-42dc-8858-edd305805a7d"))]),
        created_at: 0,
        updated_at: 0,
    };
    assert_eq!(repo.create(&album).unwrap(), album);
    assert_eq!(repo.find_by_id(&album.id).unwrap(), Some(album.clone()));
    let mut changed = album.clone();
    changed.artist_ids = IdSet::new();
    repo.update(&changed).unwrap();
    assert_eq!(repo.find_by_id(&album.id).unwrap(), Some(changed));
    repo.delete_by_id(&album.id).unwrap();
    assert_eq!(repo.find_by_id(&album.id).unwrap(), None);
}

#[test]
fn activity_repository_round_trip() {
    let mut repo = InMemoryActivityRepository::new();
    let activity = Activity {
        id: UUID4(String::from("act-1")),
        user_id: UUID4(String::from("user-1")),
        status: ActivityStatus::Pending,
        contribution: Contribution::default(),
        created_at: 0,
        updated_at: 0,
    };
    assert_eq!(repo.create(&activity).unwrap(), activity);
    assert_eq!(repo.find_by_id(&activity.id).unwrap(), Some(activity.clone()));
    let mut approved = activity.clone();
    approved.status = ActivityStatus::Approved;
    repo.update(&approved).unwrap();
    assert_eq!(repo.find_by_id(&activity.id).unwrap(), Some(approved));
    assert_eq!(repo.find_by_id(&UUID4(String::from("other"))).unwrap(), None);
}

#[test]
fn id_set_keeps_first_occurrences_only() {
    let a = UUID4(String::from("8115d6e2-e15f-42dc-8858-edd305805a7d"));
    let b = UUID4(String::from("09c227b6-7498-4f63-b17c-11b7fe4e9c77"));
    let mut set = IdSet::from_vec(vec![a.clone(), b.clone(), a.clone()]);
    assert_eq!(set.to_vec(), vec![a.clone(), b.clone()]);
    assert_eq!(set.len(), 2);
    set.insert(b.clone());
    assert_eq!(set.len(), 2);
    assert!(set.contains(&a));
    assert!(!IdSet::new().contains(&a));
}

#[test]
fn id_sets_with_the_same_ids_are_equal_in_any_order() {
    let a = UUID4(String::from("8115d6e2-e15f-42dc-8858-edd305805a7d"));
    let b = UUID4(String::from("09c227b6-7498-4f63-b17c-11b7fe4e9c77"));
    assert_eq!(IdSet::from_vec(vec![a.clone(), b.clone()]), IdSet::from_vec(vec![b.clone(), a.clone(), b.clone()]));
    assert_ne!(IdSet::from_vec(vec![a.clone()]), IdSet::from_vec(vec![a, b]));
}
