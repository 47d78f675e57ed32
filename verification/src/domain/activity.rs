use vstd::prelude::*;
use crate::domain::entity::Entity;
use crate::shared::vo::contribution::{Contribution, ContributionView};
use crate::shared::vo::UUID4;

verus! {

/// Whether a proposed change waits for a curator, or was approved or rejected.
#[derive(Debug, Clone, Copy, Default, PartialEq, Eq, Structural)]
pub enum ActivityStatus {
    #[default]
    Pending,
    Approved,
    Rejected,
}

/// A change proposed by a user, which a curator approves or rejects.
/// Times are seconds since the Unix epoch.
#[derive(Debug, Default, PartialEq, Eq)]
pub struct Activity {
    pub id: UUID4,
    pub user_id: UUID4,
    pub status: ActivityStatus,
    pub contribution: Contribution,
    pub created_at: i64,
    pub updated_at: i64,
}

/// An activity as a value.
pub struct ActivityView {
    pub id: UUID4,
    pub user_id: UUID4,
    pub status: ActivityStatus,
    pub contribution: ContributionView,
    pub created_at: i64,
    pub updated_at: i64,
}

impl View for Activity {
    type V = ActivityView;

    open spec fn view(&self) -> ActivityView {
        ActivityView {
            id: self.id,
            user_id: self.user_id,
            status: self.status,
            contribution: self.contribution@,
            created_at: self.created_at,
            updated_at: self.updated_at,
        }
    }
}

impl Clone for Activity {
    fn clone(&self) -> (r: Activity)
        ensures
            r@ == self@,
    {
        Activity {
            id: self.id.clone(),
            user_id: self.user_id.clone(),
            status: self.status,
            contribution: self.contribution.clone(),
            created_at: self.created_at,
            updated_at: self.updated_at,
        }
    }
}

/// Errors of an activity repository.
#[derive(Debug, PartialEq, Eq)]
pub enum RepositoryError {
    EntityNotFound,
    InternalServerError(String),
}

/// Errors of the activity itself.
#[derive(Debug, PartialEq, Eq)]
pub enum Error {
    ActivityIsNotPending,
}

/// Errors of approving an activity.
#[derive(Debug, PartialEq, Eq)]
pub enum ApproveError {
    ActivityError(Error),
    ActivityNotFound,
    AlbumApplyError(crate::domain::album::ApplyChangesError),
    ArtistApplyError(crate::domain::artist::ApplyChangesError),
    GenreApplyError(crate::domain::genre::ApplyChangesError),
    RepositoryError(RepositoryError),
    UserIsNotACurator,
    MediaApplyError(crate::domain::media::ApplyChangesError),
}

/// Errors of rejecting an activity.
#[derive(Debug, PartialEq, Eq)]
pub enum RejectError {
    ActivityError(Error),
    ActivityNotFound,
    ActivityRepositoryError(RepositoryError),
    UserIsNotACurator,
}

impl Entity for Activity {
    open spec fn key(&self) -> Seq<char> {
        self.id.0@
    }

    fn id_text(&self) -> (r: &String) {
        &self.id.0
    }

    fn duplicate(&self) -> (r: Activity) {
        self.clone()
    }
}

} // verus!
