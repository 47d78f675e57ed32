pub mod media_query;
pub mod query;
pub mod media_query_laws;
