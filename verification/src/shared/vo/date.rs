use vstd::prelude::*;

verus! {

/// A calendar date.
#[derive(Debug, Clone, Copy, Default, PartialEq, Eq, Structural)]
pub struct Date {
    pub year: i32,
    pub month: u32,
    pub day: u32,
}

} // verus!
