//! The verified core of the music catalogue API: value objects, paging,
//! error answers, presenters, in-memory repositories, the media listing
//! queries and password hashing.

pub mod domain;
pub mod entity_codegen;
pub mod infra;
pub mod shared;
