use vstd::prelude::*;
use crate::shared::vo::UUID4;

verus! {

/// A user of the catalogue; curators approve or reject the changes that users propose.
/// `created_at` is in seconds since the Unix epoch, in UTC.
#[derive(Debug, Default, PartialEq, Eq)]
pub struct User {
    pub id: UUID4,
    pub username: String,
    pub is_curator: bool,
    pub created_at: i64,
}

} // verus!
