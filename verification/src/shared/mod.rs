pub mod copy;
pub mod paged;
pub mod password_hash;
pub mod validators;
pub mod vo;
