use vstd::prelude::*;
use crate::domain::user::User;
use crate::shared::paged::Paged;

verus! {

/// What anyone may see of a user. `created_at` is in seconds since the Unix
/// epoch, in UTC.
#[derive(Debug, PartialEq, Eq)]
pub struct PublicUserPresenter {
    pub id: String,
    pub username: String,
    pub is_curator: bool,
    pub created_at: i64,
}

/// What anyone may see of `user`.
pub open spec fn public_user_of(user: User) -> PublicUserPresenter {
    PublicUserPresenter {
        id: user.id.0,
        username: user.username,
        is_curator: user.is_curator,
        created_at: user.created_at,
    }
}

impl From<User> for PublicUserPresenter {
    fn from(user: User) -> (r: PublicUserPresenter)
        ensures
            r.id == user.id.0,
            r.username == user.username,
            r.is_curator == user.is_curator,
            r.created_at == user.created_at,
    {
        PublicUserPresenter {
            id: user.id.0,
            username: user.username,
            is_curator: user.is_curator,
            created_at: user.created_at,
        }
    }
}

impl vstd::std_specs::convert::FromSpecImpl<User> for PublicUserPresenter {
    open spec fn obeys_from_spec() -> bool {
        true
    }

    open spec fn from_spec(v: User) -> PublicUserPresenter {
        public_user_of(v)
    }
}

impl PublicUserPresenter {
    /// What anyone may see of the user that `user` refers to.
    pub fn of(user: &User) -> (r: PublicUserPresenter)
        ensures
            r == public_user_of(*user),
    {
        PublicUserPresenter {
            id: user.id.0.clone(),
            username: user.username.clone(),
            is_curator: user.is_curator,
            created_at: user.created_at,
        }
    }

    /// A page of users as anyone may see it: each user presented, in order,
    /// and the same paging.
    pub fn paged(value: Paged<User>) -> (r: Paged<PublicUserPresenter>)
        ensures
            r.items@.len() == value.items@.len(),
            forall|i: int|
                0 <= i < r.items@.len() ==> #[trigger] r.items@[i] == public_user_of(value.items@[i]),
            r.page == value.page,
            r.total_items == value.total_items,
            r.total_pages == value.total_pages,
    {
        let mut items: Vec<PublicUserPresenter> = Vec::new();
        for i in 0..value.items.len()
            invariant
                items@.len() == i,
                forall|j: int| 0 <= j < i ==> #[trigger] items@[j] == public_user_of(value.items@[j]),
        {
            items.push(PublicUserPresenter::of(&value.items[i]));
        }
        Paged { items, page: value.page, total_items: value.total_items, total_pages: value.total_pages }
    }
}

} // verus!
