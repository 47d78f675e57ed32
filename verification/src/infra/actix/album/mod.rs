pub mod error;
pub mod presenter;
