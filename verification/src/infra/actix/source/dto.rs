use vstd::prelude::*;
use crate::domain::source::{CreateSourceInput, Source, SourceType};
use crate::shared::vo::UUID4;

verus! {

/// A request to add a place where a media can be played.
#[derive(Debug, PartialEq, Eq)]
pub struct CreateSourceDTO {
    pub src: String,
    pub media_id: UUID4,
    pub source_type: SourceType,
}

impl From<CreateSourceDTO> for CreateSourceInput {
    fn from(value: CreateSourceDTO) -> (r: CreateSourceInput)
        ensures
            r.src == value.src,
            r.media_id == value.media_id,
            r.source_type == value.source_type,
    {
        CreateSourceInput { src: value.src, media_id: value.media_id, source_type: value.source_type }
    }
}

impl vstd::std_specs::convert::FromSpecImpl<CreateSourceDTO> for CreateSourceInput {
    open spec fn obeys_from_spec() -> bool {
        true
    }

    open spec fn from_spec(v: CreateSourceDTO) -> CreateSourceInput {
        CreateSourceInput { src: v.src, media_id: v.media_id, source_type: v.source_type }
    }
}

/// What an answer shows of a source.
#[derive(Debug, PartialEq, Eq)]
pub struct SourcePresenter {
    pub id: UUID4,
    pub source_type: SourceType,
    pub src: String,
}

impl From<Source> for SourcePresenter {
    fn from(value: Source) -> (r: SourcePresenter)
        ensures
            r.id == value.id,
            r.source_type == value.source_type,
            r.src == value.src,
    {
        SourcePresenter { id: value.id, source_type: value.source_type, src: value.src }
    }
}

impl vstd::std_specs::convert::FromSpecImpl<Source> for SourcePresenter {
    open spec fn obeys_from_spec() -> bool {
        true
    }

    open spec fn from_spec(v: Source) -> SourcePresenter {
        SourcePresenter { id: v.id, source_type: v.source_type, src: v.src }
    }
}

} // verus!
