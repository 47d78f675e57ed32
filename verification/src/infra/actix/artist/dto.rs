use vstd::prelude::*;
use crate::domain::artist::{Changes, CreateArtistInput};
use crate::shared::vo::Slug;

pub use crate::infra::actix::artist::presenter::ArtistPresenter;

verus! {

/// The filters of a listing of artists.
#[derive(Debug, Default, PartialEq, Eq)]
pub struct FindAllQuery {
    pub search: Option<String>,
    pub country: Option<String>,
}

/// A request to create an artist.
#[derive(Debug, PartialEq, Eq)]
pub struct CreateArtistDTO {
    pub name: String,
    pub slug: Option<Slug>,
    pub country: Option<String>,
}

/// A request to change an artist; `None` leaves a field as it is.
#[derive(Debug, Default, PartialEq, Eq)]
pub struct UpdateArtistDto {
    pub name: Option<String>,
    pub slug: Option<Slug>,
    pub country: Option<String>,
}

impl From<CreateArtistDTO> for CreateArtistInput {
    fn from(value: CreateArtistDTO) -> (r: CreateArtistInput)
        ensures
            r.name == value.name,
            r.country == value.country,
            r.slug == value.slug,
    {
        CreateArtistInput { name: value.name, country: value.country, slug: value.slug }
    }
}

impl vstd::std_specs::convert::FromSpecImpl<CreateArtistDTO> for CreateArtistInput {
    open spec fn obeys_from_spec() -> bool {
        true
    }

    open spec fn from_spec(v: CreateArtistDTO) -> CreateArtistInput {
        CreateArtistInput { name: v.name, country: v.country, slug: v.slug }
    }
}

impl From<UpdateArtistDto> for Changes {
    fn from(value: UpdateArtistDto) -> (r: Changes)
        ensures
            r.name == value.name,
            r.country == value.country,
            r.slug == value.slug,
    {
        Changes { name: value.name, country: value.country, slug: value.slug }
    }
}

impl vstd::std_specs::convert::FromSpecImpl<UpdateArtistDto> for Changes {
    open spec fn obeys_from_spec() -> bool {
        true
    }

    open spec fn from_spec(v: UpdateArtistDto) -> Changes {
        Changes { name: v.name, country: v.country, slug: v.slug }
    }
}

} // verus!
