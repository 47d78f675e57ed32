pub mod dto;
pub mod error;
pub mod presenter;
