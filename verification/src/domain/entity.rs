use vstd::prelude::*;

verus! {

/// An entity that an in-memory repository can hold: it is found by the text
/// of its identifier and can be copied.
pub trait Entity: View + Sized {
    /// The text of the entity's identifier.
    spec fn key(&self) -> Seq<char>;

    /// The text of the entity's identifier.
    fn id_text(&self) -> (r: &String)
        ensures
            r@ == self.key(),
    ;

    /// A copy of the entity.
    fn duplicate(&self) -> (r: Self)
        ensures
            r@ == self@,
            r.key() == self.key(),
    ;
}

} // verus!
