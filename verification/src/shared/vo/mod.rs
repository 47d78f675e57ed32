pub mod contribution;
pub mod date;
pub mod id_set;
pub mod slug;
pub mod uuid4;

pub use date::Date;
pub use id_set::IdSet;
pub use slug::{Slug, SlugError};
pub use uuid4::UUID4;
