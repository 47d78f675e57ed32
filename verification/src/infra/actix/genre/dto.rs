use vstd::prelude::*;
use crate::domain::genre::{Changes, CreateGenreInput};
use crate::shared::vo::{Slug, UUID4};

verus! {

/// A request to create a genre.
#[derive(Debug, PartialEq, Eq)]
pub struct CreateGenreDTO {
    pub name: String,
    pub slug: Option<Slug>,
    pub parent_id: Option<UUID4>,
}

/// A request to change a genre; `None` leaves a field as it is, and
/// `Some(None)` for the parent makes the genre a root genre.
#[derive(Debug, Default, PartialEq, Eq)]
pub struct UpdateGenreDto {
    pub name: Option<String>,
    pub parent_id: Option<Option<UUID4>>,
    pub slug: Option<Slug>,
}

impl From<CreateGenreDTO> for CreateGenreInput {
    fn from(value: CreateGenreDTO) -> (r: CreateGenreInput)
        ensures
            r.name == value.name,
            r.parent_id == value.parent_id,
            r.slug == value.slug,
    {
        CreateGenreInput { name: value.name, parent_id: value.parent_id, slug: value.slug }
    }
}

impl vstd::std_specs::convert::FromSpecImpl<CreateGenreDTO> for CreateGenreInput {
    open spec fn obeys_from_spec() -> bool {
        true
    }

    open spec fn from_spec(v: CreateGenreDTO) -> CreateGenreInput {
        CreateGenreInput { name: v.name, parent_id: v.parent_id, slug: v.slug }
    }
}

impl From<UpdateGenreDto> for Changes {
    fn from(value: UpdateGenreDto) -> (r: Changes)
        ensures
            r.name == value.name,
            r.parent_id == value.parent_id,
            r.slug == value.slug,
    {
        Changes { name: value.name, parent_id: value.parent_id, slug: value.slug }
    }
}

impl vstd::std_specs::convert::FromSpecImpl<UpdateGenreDto> for Changes {
    open spec fn obeys_from_spec() -> bool {
        true
    }

    open spec fn from_spec(v: UpdateGenreDto) -> Changes {
        Changes { name: v.name, parent_id: v.parent_id, slug: v.slug }
    }
}

} // verus!
