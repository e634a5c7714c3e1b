use vstd::prelude::*;
use vstd::string::StringExecFns;
use crate::domain::lifecycle::QuestEvent;
use crate::domain::value_objects::quest_statuses::QuestStatuses;

verus! {

/// Why a store did not do what it was asked.
#[derive(Clone, Copy, Debug, PartialEq, Eq, Structural)]
pub enum StoreError {
    /// The store holds no such record.
    NotFound,
    /// The store holds the record already.
    Duplicate,
    /// The store itself failed; nothing is known of the record.
    Unavailable,
}

/// Why the engine refused a request. The kinds are told apart by the caller;
/// how each is shown to a user is the boundary's business.
#[derive(Clone, Copy, Debug, PartialEq, Eq, Structural)]
pub enum QuestError {
    /// `event` is no transition out of `status`.
    InvalidTransition { status: QuestStatuses, event: QuestEvent },
    /// The quest is on its journey or completed: nobody joins it.
    QuestNotJoinable,
    /// The quest is on its journey or completed: nobody leaves it.
    QuestNotLeavable,
    /// The roster has reached its bound.
    QuestFull,
    /// The adventurer is on the roster already.
    AlreadyJoined,
    /// There is no such quest.
    NotFound,
    /// The caller is not the quest's guild commander.
    Unauthorized,
    /// A store failed; no rule of the domain was broken.
    StorageUnavailable,
}

impl QuestError {
    /// The kind under which a store's refusal reaches the caller. Nothing of
    /// the store's technology goes into it.
    pub open spec fn of_store_error(error: StoreError) -> QuestError {
        match error {
            StoreError::NotFound => QuestError::NotFound,
            StoreError::Duplicate => QuestError::AlreadyJoined,
            StoreError::Unavailable => QuestError::StorageUnavailable,
        }
    }

    pub fn from_store_error(error: StoreError) -> (e: QuestError)
        ensures
            e == Self::of_store_error(error),
    {
        match error {
            StoreError::NotFound => QuestError::NotFound,
            StoreError::Duplicate => QuestError::AlreadyJoined,
            StoreError::Unavailable => QuestError::StorageUnavailable,
        }
    }

    /// The HTTP status under which a boundary shows this error: 404 for what
    /// does not exist, 403 for who may not, 409 for what the state of the
    /// quest or of its roster forbids, 503 for a store that failed.
    pub open spec fn http_status_of(self) -> int {
        match self {
            QuestError::NotFound => 404,
            QuestError::Unauthorized => 403,
            QuestError::StorageUnavailable => 503,
            QuestError::InvalidTransition { .. } => 409,
            QuestError::QuestNotJoinable => 409,
            QuestError::QuestNotLeavable => 409,
            QuestError::QuestFull => 409,
            QuestError::AlreadyJoined => 409,
        }
    }

    pub fn http_status(&self) -> (code: u16)
        ensures
            code == self.http_status_of(),
    {
        match self {
            QuestError::NotFound => 404,
            QuestError::Unauthorized => 403,
            QuestError::StorageUnavailable => 503,
            QuestError::InvalidTransition { .. } => 409,
            QuestError::QuestNotJoinable => 409,
            QuestError::QuestNotLeavable => 409,
            QuestError::QuestFull => 409,
            QuestError::AlreadyJoined => 409,
        }
    }

    /// The message of this error.
    pub open spec fn message(self) -> Seq<char> {
        match self {
            QuestError::InvalidTransition { status, event } => "Cannot "@ + event.label()
                + " a quest that is "@ + status.label(),
            QuestError::QuestNotJoinable => "Quest is not joinable"@,
            QuestError::QuestNotLeavable => "Quest is not leavable"@,
            QuestError::QuestFull => "Quest is full"@,
            QuestError::AlreadyJoined => "Adventurer has already joined the quest"@,
            QuestError::NotFound => "Quest not found"@,
            QuestError::Unauthorized => "Only the quest's guild commander may do this"@,
            QuestError::StorageUnavailable => "Storage is unavailable"@,
        }
    }

    pub fn to_string(&self) -> (s: String)
        ensures
            s@ == self.message(),
    {
        match self {
            QuestError::InvalidTransition { status, event } => {
                let mut text = "Cannot ".to_owned();
                text.append(event.to_string().as_str());
                text.append(" a quest that is ");
                text.append(status.to_string().as_str());
                text
            },
            QuestError::QuestNotJoinable => "Quest is not joinable".to_owned(),
            QuestError::QuestNotLeavable => "Quest is not leavable".to_owned(),
            QuestError::QuestFull => "Quest is full".to_owned(),
            QuestError::AlreadyJoined => "Adventurer has already joined the quest".to_owned(),
            QuestError::NotFound => "Quest not found".to_owned(),
            QuestError::Unauthorized => "Only the quest's guild commander may do this".to_owned(),
            QuestError::StorageUnavailable => "Storage is unavailable".to_owned(),
        }
    }
}

} // verus!
