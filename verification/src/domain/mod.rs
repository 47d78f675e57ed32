pub mod activity;
pub mod album;
pub mod artist;
pub mod entity;
pub mod genre;
pub mod media;
pub mod source;
pub mod user;
