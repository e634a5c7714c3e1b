use vstd::prelude::*;
use crate::domain::errors::QuestError;
use crate::domain::value_objects::quest_statuses::QuestStatuses;

verus! {

/// A roster of `occupancy` adventurers has room for one more under the bound
/// `max_adventurers`.
pub open spec fn has_room(occupancy: nat, max_adventurers: nat) -> bool {
    occupancy < max_adventurers
}

/// What becomes of a request to join a quest in `status` whose roster holds
/// `occupancy` adventurers, `already_joined` saying whether the one who asks is
/// among them. The status is looked at first, the room second, the roster
/// last.
pub open spec fn joining_outcome(
    status: QuestStatuses,
    occupancy: nat,
    max_adventurers: nat,
    already_joined: bool,
) -> Result<(), QuestError> {
    if !status.is_recruiting() {
        Err(QuestError::QuestNotJoinable)
    } else if !has_room(occupancy, max_adventurers) {
        Err(QuestError::QuestFull)
    } else if already_joined {
        Err(QuestError::AlreadyJoined)
    } else {
        Ok(())
    }
}

/// What becomes of a request to leave a quest in `status`. Leaving a quest
/// that one is not on is no error: it changes nothing.
pub open spec fn leaving_outcome(status: QuestStatuses) -> Result<(), QuestError> {
    if status.is_recruiting() {
        Ok(())
    } else {
        Err(QuestError::QuestNotLeavable)
    }
}

/// The capacity gate: whether a roster of `occupancy` adventurers takes one
/// more.
pub fn capacity_gate(occupancy: u64, max_adventurers: u64) -> (open: bool)
    ensures
        open == has_room(occupancy as nat, max_adventurers as nat),
{
    occupancy < max_adventurers
}

/// The checks that come before an adventurer is put on the roster: the quest
/// recruits and has room.
pub fn check_joinable(status: QuestStatuses, occupancy: u64, max_adventurers: u64) -> (r: Result<
    (),
    QuestError,
>)
    ensures
        r == joining_outcome(status, occupancy as nat, max_adventurers as nat, false),
{
    if !status.allows_roster_changes() {
        Err(QuestError::QuestNotJoinable)
    } else if !capacity_gate(occupancy, max_adventurers) {
        Err(QuestError::QuestFull)
    } else {
        Ok(())
    }
}

/// The check that comes before an adventurer is taken off the roster.
pub fn check_leavable(status: QuestStatuses) -> (r: Result<(), QuestError>)
    ensures
        r == leaving_outcome(status),
{
    if status.allows_roster_changes() {
        Ok(())
    } else {
        Err(QuestError::QuestNotLeavable)
    }
}

} // verus!
