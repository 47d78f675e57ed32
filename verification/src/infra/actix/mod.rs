pub mod activity;
pub mod album;
pub mod artist;
pub mod error_laws;
pub mod errors;
pub mod genre;
pub mod json_error;
pub mod media;
pub mod presenter_laws;
pub mod source;
pub mod user;
