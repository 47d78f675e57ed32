use vstd::prelude::*;
use crate::shared::vo::{Slug, UUID4};

verus! {

/// A copy of an optional text.
pub fn copy_opt_string(o: &Option<String>) -> (r: Option<String>)
    ensures
        r == *o,
{
    match o {
        Some(s) => Some(s.clone()),
        None => None,
    }
}

/// A copy of an optional slug.
pub fn copy_opt_slug(o: &Option<Slug>) -> (r: Option<Slug>)
    ensures
        r == *o,
{
    match o {
        Some(s) => Some(s.clone()),
        None => None,
    }
}

/// A copy of an optional identifier.
pub fn copy_opt_id(o: &Option<UUID4>) -> (r: Option<UUID4>)
    ensures
        r == *o,
{
    match o {
        Some(s) => Some(s.clone()),
        None => None,
    }
}

} // verus!
