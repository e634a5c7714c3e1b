use vstd::prelude::*;
use crate::domain::errors::QuestError;
use crate::domain::value_objects::quest_statuses::QuestStatuses;

verus! {

/// What a guild commander may ask of a quest.
#[derive(Clone, Copy, Debug, PartialEq, Eq, Structural)]
pub enum QuestEvent {
    BeginJourney,
    Complete,
    Fail,
}

impl QuestEvent {
    /// The words for this event in a message.
    pub open spec fn label(self) -> Seq<char> {
        match self {
            QuestEvent::BeginJourney => "begin the journey of"@,
            QuestEvent::Complete => "complete"@,
            QuestEvent::Fail => "fail"@,
        }
    }

    pub fn to_string(&self) -> (s: String)
        ensures
            s@ == self.label(),
    {
        match self {
            QuestEvent::BeginJourney => "begin the journey of".to_owned(),
            QuestEvent::Complete => "complete".to_owned(),
            QuestEvent::Fail => "fail".to_owned(),
        }
    }
}

/// The transition table. A quest sets out from `Open`, or again from `Failed`;
/// a journey ends in `Completed` or `Failed`; nothing else is a transition.
pub open spec fn next_status(status: QuestStatuses, event: QuestEvent) -> Option<QuestStatuses> {
    match (status, event) {
        (QuestStatuses::Open, QuestEvent::BeginJourney) => Some(QuestStatuses::InJourney),
        (QuestStatuses::InJourney, QuestEvent::Complete) => Some(QuestStatuses::Completed),
        (QuestStatuses::InJourney, QuestEvent::Fail) => Some(QuestStatuses::Failed),
        (QuestStatuses::Failed, QuestEvent::BeginJourney) => Some(QuestStatuses::InJourney),
        _ => None,
    }
}

/// What becomes of the request of `caller` to apply `event` to a quest in
/// `status` whose commander is `owner`. A pair outside the table is an invalid
/// transition whoever asks; a pair of the table is granted to the commander
/// alone.
pub open spec fn command_outcome(
    status: QuestStatuses,
    owner: int,
    caller: int,
    event: QuestEvent,
) -> Result<QuestStatuses, QuestError> {
    match next_status(status, event) {
        None => Err(QuestError::InvalidTransition { status, event }),
        Some(target) => if caller == owner {
            Ok(target)
        } else {
            Err(QuestError::Unauthorized)
        },
    }
}

/// Looks `event` up in the transition table for a quest in `status`.
pub fn transition(status: QuestStatuses, event: QuestEvent) -> (r: Result<QuestStatuses, QuestError>)
    ensures
        r == match next_status(status, event) {
            Some(target) => Ok::<QuestStatuses, QuestError>(target),
            None => Err(QuestError::InvalidTransition { status, event }),
        },
{
    match status {
        QuestStatuses::Open => match event {
            QuestEvent::BeginJourney => Ok(QuestStatuses::InJourney),
            _ => Err(QuestError::InvalidTransition { status, event }),
        },
        QuestStatuses::InJourney => match event {
            QuestEvent::Complete => Ok(QuestStatuses::Completed),
            QuestEvent::Fail => Ok(QuestStatuses::Failed),
            QuestEvent::BeginJourney => Err(QuestError::InvalidTransition { status, event }),
        },
        QuestStatuses::Failed => match event {
            QuestEvent::BeginJourney => Ok(QuestStatuses::InJourney),
            _ => Err(QuestError::InvalidTransition { status, event }),
        },
        QuestStatuses::Completed => Err(QuestError::InvalidTransition { status, event }),
    }
}

/// Decides a commander's request: the status the quest moves to, or why it
/// stays where it is.
pub fn command(
    status: QuestStatuses,
    guild_commander_id: i32,
    caller_id: i32,
    event: QuestEvent,
) -> (r: Result<QuestStatuses, QuestError>)
    ensures
        r == command_outcome(status, guild_commander_id as int, caller_id as int, event),
{
    match transition(status, event) {
        Err(refusal) => Err(refusal),
        Ok(target) => {
            if caller_id == guild_commander_id {
                Ok(target)
            } else {
                Err(QuestError::Unauthorized)
            }
        },
    }
}

/// `Completed` is terminal, and it is the only status that is: no event
/// leads out of it, and from every other status some event does.
pub proof fn lemma_completed_is_the_terminal_status(status: QuestStatuses)
    ensures
        status.is_terminal() <==> forall|event: QuestEvent| next_status(status, event) is None,
{
    if !status.is_terminal() {
        let event = if status is InJourney {
            QuestEvent::Complete
        } else {
            QuestEvent::BeginJourney
        };
        assert(next_status(status, event) is Some);
    }
}

/// A transition never leaves a quest where it was, and never reopens it:
/// `Open` is only the status a quest is created in.
pub proof fn lemma_transitions_move_and_never_reopen(status: QuestStatuses, event: QuestEvent)
    ensures
        next_status(status, event) != Some(status),
        next_status(status, event) != Some(QuestStatuses::Open),
{
}

/// Recruiting and travelling alternate: a recruiting quest can only set out,
/// and only from a journey does a quest come to an end or back to recruiting.
pub proof fn lemma_recruiting_alternates_with_journeys(status: QuestStatuses, event: QuestEvent)
    ensures
        status.is_recruiting() ==> (next_status(status, event) is Some <==> event is BeginJourney),
        status.is_recruiting() && next_status(status, event) is Some ==> next_status(
            status,
            event,
        ) == Some(QuestStatuses::InJourney),
        next_status(status, event) matches Some(target) && target != QuestStatuses::InJourney
            ==> status is InJourney,
{
}

} // verus!
