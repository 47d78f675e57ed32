pub mod uuid;

pub use self::uuid::uuid;
