use vstd::prelude::*;
use crate::shared::vo::UUID4;

verus! {

/// No identifier occurs twice: the texts of any two entries differ.
pub open spec fn distinct_ids(s: Seq<UUID4>) -> bool {
    forall|i: int, j: int| #![trigger s[i], s[j]] 0 <= i < j < s.len() ==> s[i].0@ != s[j].0@
}

/// Some entry of `s` has the text of `id`.
pub open spec fn has_id(s: Seq<UUID4>, id: UUID4) -> bool {
    exists|i: int| 0 <= i < s.len() && #[trigger] s[i].0@ == id.0@
}

/// The entries of `s` with each identifier kept at its first occurrence only.
pub open spec fn first_occurrences(s: Seq<UUID4>) -> Seq<UUID4>
    decreases s.len(),
{
    if s.len() == 0 {
        Seq::empty()
    } else {
        let kept = first_occurrences(s.drop_last());
        if has_id(kept, s.last()) {
            kept
        } else {
            kept.push(s.last())
        }
    }
}

/// The same identifiers, in whatever order: each identifier of either is,
/// by its text, in the other.
pub open spec fn same_ids(a: Seq<UUID4>, b: Seq<UUID4>) -> bool {
    &&& forall|i: int| 0 <= i < a.len() ==> has_id(b, #[trigger] a[i])
    &&& forall|j: int| 0 <= j < b.len() ==> has_id(a, #[trigger] b[j])
}

/// A set of identifiers, kept in the order in which they were first added.
/// Two sets are equal when they hold the same identifiers, in any order.
#[derive(Debug, Eq)]
pub struct IdSet {
    ids: Vec<UUID4>,
}

impl View for IdSet {
    type V = Seq<UUID4>;

    closed spec fn view(&self) -> Seq<UUID4> {
        self.ids@
    }
}

impl IdSet {
    /// Nothing occurs twice.
    #[verifier::type_invariant]
    pub open spec fn inv(self) -> bool {
        distinct_ids(self@)
    }

    /// The empty set.
    pub fn new() -> (r: IdSet)
        ensures
            r@ == Seq::<UUID4>::empty(),
    {
        IdSet { ids: Vec::new() }
    }

    /// Whether the set holds an identifier with the text of `id`.
    pub fn contains(&self, id: &UUID4) -> (r: bool)
        ensures
            r == has_id(self@, *id),
    {
        let mut i: usize = 0;
        while i < self.ids.len()
            invariant
                i <= self.ids@.len(),
                forall|j: int| 0 <= j < i ==> #[trigger] self.ids@[j].0@ != id.0@,
            decreases self.ids@.len() - i,
        {
            if self.ids[i].0 == id.0 {
                return true;
            }
            i = i + 1;
        }
        false
    }

    /// Adds `id` at the end unless an identifier with its text is already there.
    pub fn insert(&mut self, id: UUID4)
        ensures
            has_id(old(self)@, id) ==> final(self)@ == old(self)@,
            !has_id(old(self)@, id) ==> final(self)@ == old(self)@.push(id),
            distinct_ids(final(self)@),
    {
        proof {
            use_type_invariant(&*self);
        }
        if !self.contains(&id) {
            let ghost before = self.ids@;
            let ghost after = before.push(id);
            assert(distinct_ids(after)) by {
                assert forall|i: int, j: int| 0 <= i < j < after.len() implies after[i].0@ != after[j].0@ by {
                    if j == before.len() {
                        assert(!(before[i].0@ == id.0@));
                    } else {
                        assert(before[i] == after[i] && before[j] == after[j]);
                    }
                }
            }
            let mut ids: Vec<UUID4> = Vec::new();
            std::mem::swap(&mut ids, &mut self.ids);
            ids.push(id);
            self.ids = ids;
        }
    }

    /// The set of the identifiers of `ids`, each at its first occurrence.
    pub fn from_vec(ids: Vec<UUID4>) -> (r: IdSet)
        ensures
            r@ == first_occurrences(ids@),
            distinct_ids(r@),
    {
        let mut r = IdSet::new();
        let mut i: usize = 0;
        while i < ids.len()
            invariant
                i <= ids@.len(),
                r@ == first_occurrences(ids@.take(i as int)),
            decreases ids@.len() - i,
        {
            assert(ids@.take(i + 1).drop_last() =~= ids@.take(i as int));
            assert(ids@.take(i + 1).last() == ids@[i as int]);
            r.insert(ids[i].clone());
            i = i + 1;
        }
        assert(ids@.take(ids@.len() as int) =~= ids@);
        proof {
            use_type_invariant(&r);
        }
        r
    }

    /// The identifiers in the order in which they were added.
    pub fn to_vec(&self) -> (r: Vec<UUID4>)
        ensures
            r@ == self@,
            distinct_ids(r@),
    {
        proof {
            use_type_invariant(self);
        }
        let mut r: Vec<UUID4> = Vec::new();
        for i in 0..self.ids.len()
            invariant
                r@ == self.ids@.take(i as int),
        {
            r.push(self.ids[i].clone());
            assert(r@ =~= self.ids@.take(i + 1));
        }
        assert(self.ids@.take(self.ids@.len() as int) =~= self.ids@);
        r
    }

    /// Whether each identifier of `self` is in `other`.
    fn is_within(&self, other: &IdSet) -> (r: bool)
        ensures
            r == forall|i: int| 0 <= i < self@.len() ==> has_id(other@, #[trigger] self@[i]),
    {
        let mut i: usize = 0;
        while i < self.ids.len()
            invariant
                i <= self.ids@.len(),
                forall|j: int| 0 <= j < i ==> has_id(other@, #[trigger] self@[j]),
            decreases self.ids@.len() - i,
        {
            if !other.contains(&self.ids[i]) {
                assert(!has_id(other@, self@[i as int]));
                return false;
            }
            i = i + 1;
        }
        true
    }

    /// The number of identifiers.
    pub fn len(&self) -> (r: usize)
        ensures
            r == self@.len(),
    {
        self.ids.len()
    }
}

impl Clone for IdSet {
    fn clone(&self) -> (r: IdSet)
        ensures
            r@ == self@,
    {
        proof {
            use_type_invariant(self);
        }
        IdSet { ids: self.to_vec() }
    }
}

impl PartialEq for IdSet {
    fn eq(&self, other: &IdSet) -> (r: bool) {
        self.is_within(other) && other.is_within(self)
    }
}

impl vstd::std_specs::cmp::PartialEqSpecImpl for IdSet {
    open spec fn obeys_eq_spec() -> bool {
        true
    }

    open spec fn eq_spec(&self, other: &IdSet) -> bool {
        same_ids(self@, other@)
    }
}

impl Default for IdSet {
    fn default() -> (r: IdSet)
        ensures
            r@ == Seq::<UUID4>::empty(),
    {
        IdSet::new()
    }
}

proof fn lemma_has_id_push(s: Seq<UUID4>, y: UUID4, x: UUID4)
    ensures
        has_id(s.push(y), x) <==> (has_id(s, x) || y.0@ == x.0@),
{
    if has_id(s, x) {
        let i = choose|i: int| 0 <= i < s.len() && #[trigger] s[i].0@ == x.0@;
        assert(s.push(y)[i] == s[i]);
    }
    if y.0@ == x.0@ {
        assert(s.push(y)[s.len() as int] == y);
    }
    if has_id(s.push(y), x) {
        let i = choose|i: int| 0 <= i < s.push(y).len() && #[trigger] s.push(y)[i].0@ == x.0@;
        if i < s.len() {
            assert(s[i] == s.push(y)[i]);
        }
    }
}

/// Building a set from a list keeps exactly the identifiers of the list,
/// each once: an identifier is in the set if and only if it is in the list,
/// and no identifier occurs twice.
pub proof fn set_of_list_keeps_each_identifier_once(s: Seq<UUID4>, x: UUID4)
    ensures
        has_id(first_occurrences(s), x) <==> has_id(s, x),
        distinct_ids(first_occurrences(s)),
    decreases s.len(),
{
    if s.len() > 0 {
        let prev = s.drop_last();
        set_of_list_keeps_each_identifier_once(prev, x);
        set_of_list_keeps_each_identifier_once(prev, s.last());
        let kept = first_occurrences(prev);
        assert(s =~= prev.push(s.last()));
        lemma_has_id_push(prev, s.last(), x);
        if !has_id(kept, s.last()) {
            lemma_has_id_push(kept, s.last(), x);
            let after = kept.push(s.last());
            assert forall|i: int, j: int| 0 <= i < j < after.len() implies after[i].0@ != after[j].0@ by {
                if j == kept.len() {
                    assert(after[i] == kept[i]);
                    if after[i].0@ == after[j].0@ {
                        assert(kept[i].0@ == s.last().0@);
                    }
                } else {
                    assert(after[i] == kept[i] && after[j] == kept[j]);
                }
            }
        } else {
            if has_id(s, x) && !has_id(prev, x) {
                let k = choose|i: int| 0 <= i < kept.len() && #[trigger] kept[i].0@ == s.last().0@;
                assert(kept[k].0@ == x.0@);
            }
        }
    }
}

} // verus!
