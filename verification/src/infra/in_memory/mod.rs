pub mod activity_repository;
pub mod album_repository;
pub mod artist_repository;
pub mod genre_repository;
pub mod store;

pub use activity_repository::InMemoryActivityRepository;
pub use album_repository::InMemoryAlbumRepository;
pub use artist_repository::InMemoryArtistRepository;
pub use genre_repository::InMemoryGenreRepository;
