use vstd::prelude::*;

verus! {

/// The identifier of an entity, held as its textual form.
#[derive(Debug, Default, PartialEq, Eq, Hash)]
pub struct UUID4(pub String);

impl Clone for UUID4 {
    fn clone(&self) -> (r: UUID4)
        ensures
            r == *self,
    {
        UUID4(self.0.clone())
    }
}

impl UUID4 {
    /// The textual form of the identifier.
    pub fn as_str(&self) -> (r: &str)
        ensures
            r@ == self.0@,
    {
        self.0.as_str()
    }

    /// The textual form of the identifier, as a new `String`.
    pub fn to_string(&self) -> (r: String)
        ensures
            r@ == self.0@,
    {
        self.0.clone()
    }
}

} // verus!
