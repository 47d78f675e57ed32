use vstd::prelude::*;
use crate::domain::activity::{Activity, ActivityView, RepositoryError};
use crate::domain::entity::Entity;
use crate::infra::in_memory::store::{lookup, EntityStore};
use crate::shared::vo::UUID4;

verus! {

/// Activities kept in memory, keyed by the text of their identifier.
pub struct InMemoryActivityRepository {
    activities: EntityStore<Activity>,
}

impl View for InMemoryActivityRepository {
    type V = Map<Seq<char>, ActivityView>;

    closed spec fn view(&self) -> Map<Seq<char>, ActivityView> {
        self.activities@
    }
}

/// The activity, if any, as a value.
pub open spec fn activity_view_of(found: Option<Activity>) -> Option<ActivityView> {
    match found {
        Some(a) => Some(a@),
        None => None,
    }
}

impl InMemoryActivityRepository {
    pub closed spec fn wf(&self) -> bool {
        self.activities.wf()
    }

    /// An empty repository.
    pub fn new() -> (r: Self)
        ensures
            r.wf(),
            r@ == Map::<Seq<char>, ActivityView>::empty(),
    {
        InMemoryActivityRepository { activities: EntityStore::new() }
    }

    /// Stores a new activity and gives back a copy of it.
    pub fn create(&mut self, input: &Activity) -> (r: Result<Activity, RepositoryError>)
        requires
            old(self).wf(),
        ensures
            final(self).wf(),
            final(self)@ == old(self)@.insert(input.key(), input@),
            r matches Ok(a) && a@ == input@,
    {
        self.activities.put(input.clone());
        Ok(input.clone())
    }

    /// The activity with identifier `id`, if there is one.
    pub fn find_by_id(&self, id: &UUID4) -> (r: Result<Option<Activity>, RepositoryError>)
        requires
            self.wf(),
        ensures
            r matches Ok(found) && activity_view_of(found) == lookup(self@, id.0@),
    {
        Ok(self.activities.get(&id.0))
    }

    /// Stores an activity in place of the one with the same identifier and
    /// gives back a copy of it.
    pub fn update(&mut self, activity: &Activity) -> (r: Result<Activity, RepositoryError>)
        requires
            old(self).wf(),
        ensures
            final(self).wf(),
            final(self)@ == old(self)@.insert(activity.key(), activity@),
            r matches Ok(a) && a@ == activity@,
    {
        self.activities.put(activity.clone());
        Ok(activity.clone())
    }
}

} // verus!
