use vstd::prelude::*;
use crate::domain::entities::quests::QuestEntityView;
use crate::domain::errors::QuestError;
use crate::domain::lifecycle::{command, command_outcome, next_status, QuestEvent};
use crate::domain::repositories::quest_store::{with_status, QuestStore};
use crate::domain::value_objects::quest_statuses::QuestStatuses;

verus! {

/// What becomes of the request of `caller` to apply `event` to `quest_id`,
/// given what the quest store holds: the status that the quest moves to, or
/// why it stays where it is.
pub open spec fn command_result(
    quests: Map<int, QuestEntityView>,
    quest_id: int,
    caller: int,
    event: QuestEvent,
) -> Result<QuestStatuses, QuestError> {
    if !quests.contains_key(quest_id) {
        Err(QuestError::NotFound)
    } else {
        command_outcome(quests[quest_id].status, quests[quest_id].guild_commander_id, caller, event)
    }
}

/// The quests once the request has been answered.
pub open spec fn quests_after_command(
    quests: Map<int, QuestEntityView>,
    quest_id: int,
    caller: int,
    event: QuestEvent,
) -> Map<int, QuestEntityView> {
    match command_result(quests, quest_id, caller, event) {
        Ok(target) => with_status(quests, quest_id, target),
        Err(_) => quests,
    }
}

/// An event that is no transition out of a quest's status is refused as an
/// invalid transition, naming the status and the event, whoever asks; the
/// quests stay as they are.
pub proof fn lemma_outside_the_table_nothing_moves(
    quests: Map<int, QuestEntityView>,
    quest_id: int,
    caller: int,
    event: QuestEvent,
)
    requires
        quests.contains_key(quest_id),
        next_status(quests[quest_id].status, event) is None,
    ensures
        command_result(quests, quest_id, caller, event) == Err::<QuestStatuses, QuestError>(
            QuestError::InvalidTransition { status: quests[quest_id].status, event },
        ),
        quests_after_command(quests, quest_id, caller, event) == quests,
{
}

/// A command changes at most the status of the one quest it names: the same
/// quests exist afterwards, each with the commander, the texts and the dates
/// it had.
pub proof fn lemma_command_changes_the_status_only(
    quests: Map<int, QuestEntityView>,
    quest_id: int,
    caller: int,
    event: QuestEvent,
    other: int,
)
    ensures
        quests_after_command(quests, quest_id, caller, event).contains_key(other)
            <==> quests.contains_key(other),
        quests.contains_key(other) ==> quests_after_command(
            quests,
            quest_id,
            caller,
            event,
        )[other].with_status(quests[other].status) == quests[other],
        other != quest_id ==> quests_after_command(quests, quest_id, caller, event)[other]
            == quests[other],
{
}

/// A granted command was given by the quest's commander and follows the
/// table.
pub proof fn lemma_granted_commands_are_the_commanders(
    quests: Map<int, QuestEntityView>,
    quest_id: int,
    caller: int,
    event: QuestEvent,
)
    requires
        command_result(quests, quest_id, caller, event) is Ok,
    ensures
        quests.contains_key(quest_id),
        caller == quests[quest_id].guild_commander_id,
        next_status(quests[quest_id].status, event) == Some(
            command_result(quests, quest_id, caller, event)->Ok_0,
        ),
{
}

/// The lifecycle controller: a guild commander moves a quest through its
/// lifecycle with it.
pub struct JourneyLedgerUseCase<T> where T: QuestStore {
    journey_ledger_repository: T,
}

impl<T> JourneyLedgerUseCase<T> where T: QuestStore {
    /// The store keeps its invariant.
    pub closed spec fn wf(&self) -> bool {
        self.journey_ledger_repository.wf()
    }

    /// The quests that the controller works on.
    pub closed spec fn quests(&self) -> Map<int, QuestEntityView> {
        self.journey_ledger_repository.quests()
    }

    /// The store does not fail on its own account.
    pub closed spec fn reliable(&self) -> bool {
        self.journey_ledger_repository.reliable()
    }

    /// A controller over the quest store.
    pub fn new(journey_ledger_repository: T) -> (controller: Self)
        ensures
            controller.wf() == journey_ledger_repository.wf(),
            controller.reliable() == journey_ledger_repository.reliable(),
            controller.quests() == journey_ledger_repository.quests(),
    {
        JourneyLedgerUseCase { journey_ledger_repository }
    }

    /// Gives the quest store back.
    pub fn into_repository(self) -> (store: T)
        ensures
            store.wf() == self.wf(),
            store.reliable() == self.reliable(),
            store.quests() == self.quests(),
    {
        self.journey_ledger_repository
    }

    /// Applies `event` to the quest on behalf of `guild_commander_id` and
    /// gives the quest's identifier.
    ///
    /// The quest must exist (`NotFound`), `event` must be a transition out of
    /// its status (`InvalidTransition`) and the caller its commander
    /// (`Unauthorized`); the first of these that fails is the answer. Only a
    /// store that fails on its own account makes the answer
    /// `StorageUnavailable` instead. The status of the quest moves as the
    /// table says when the answer is `Ok`; otherwise nothing changes.
    pub fn apply(&mut self, quest_id: i32, guild_commander_id: i32, event: QuestEvent) -> (r: Result<
        i32,
        QuestError,
    >)
        requires
            old(self).wf(),
        ensures
            final(self).wf(),
            final(self).reliable() == old(self).reliable(),
            match r {
                Ok(id) => id == quest_id && command_result(
                    old(self).quests(),
                    quest_id as int,
                    guild_commander_id as int,
                    event,
                ) is Ok,
                Err(refusal) => command_result(
                    old(self).quests(),
                    quest_id as int,
                    guild_commander_id as int,
                    event,
                ) == Err::<QuestStatuses, QuestError>(refusal) || refusal
                    == QuestError::StorageUnavailable,
            },
            r == Err::<i32, QuestError>(QuestError::StorageUnavailable) ==> !old(self).reliable(),
            final(self).quests() == if r is Ok {
                quests_after_command(
                    old(self).quests(),
                    quest_id as int,
                    guild_commander_id as int,
                    event,
                )
            } else {
                old(self).quests()
            },
    {
        let quest = match self.journey_ledger_repository.get(quest_id) {
            Ok(quest) => quest,
            Err(error) => {
                return Err(QuestError::from_store_error(error));
            },
        };
        let target = match command(quest.status, quest.guild_commander_id, guild_commander_id, event) {
            Ok(target) => target,
            Err(refusal) => {
                return Err(refusal);
            },
        };
        match self.journey_ledger_repository.set_status(quest_id, quest.status, target) {
            Ok(true) => Ok(quest_id),
            Ok(false) => Err(QuestError::StorageUnavailable),
            Err(error) => Err(QuestError::from_store_error(error)),
        }
    }

    /// The commander sends the quest on its journey: from `Open`, or again
    /// from `Failed`.
    pub fn in_journey(&mut self, quest_id: i32, guild_commander_id: i32) -> (r: Result<i32, QuestError>)
        requires
            old(self).wf(),
        ensures
            final(self).wf(),
            final(self).reliable() == old(self).reliable(),
            match r {
                Ok(id) => id == quest_id && command_result(
                    old(self).quests(),
                    quest_id as int,
                    guild_commander_id as int,
                    QuestEvent::BeginJourney,
                ) is Ok,
                Err(refusal) => command_result(
                    old(self).quests(),
                    quest_id as int,
                    guild_commander_id as int,
                    QuestEvent::BeginJourney,
                ) == Err::<QuestStatuses, QuestError>(refusal) || refusal
                    == QuestError::StorageUnavailable,
            },
            r == Err::<i32, QuestError>(QuestError::StorageUnavailable) ==> !old(self).reliable(),
            final(self).quests() == if r is Ok {
                quests_after_command(
                    old(self).quests(),
                    quest_id as int,
                    guild_commander_id as int,
                    QuestEvent::BeginJourney,
                )
            } else {
                old(self).quests()
            },
    {
        self.apply(quest_id, guild_commander_id, QuestEvent::BeginJourney)
    }

    /// The commander declares the journey completed. Nothing moves a
    /// completed quest again.
    pub fn to_completed(&mut self, quest_id: i32, guild_commander_id: i32) -> (r: Result<
        i32,
        QuestError,
    >)
        requires
            old(self).wf(),
        ensures
            final(self).wf(),
            final(self).reliable() == old(self).reliable(),
            match r {
                Ok(id) => id == quest_id && command_result(
                    old(self).quests(),
                    quest_id as int,
                    guild_commander_id as int,
                    QuestEvent::Complete,
                ) is Ok,
                Err(refusal) => command_result(
                    old(self).quests(),
                    quest_id as int,
                    guild_commander_id as int,
                    QuestEvent::Complete,
                ) == Err::<QuestStatuses, QuestError>(refusal) || refusal
                    == QuestError::StorageUnavailable,
            },
            r == Err::<i32, QuestError>(QuestError::StorageUnavailable) ==> !old(self).reliable(),
            final(self).quests() == if r is Ok {
                quests_after_command(
                    old(self).quests(),
                    quest_id as int,
                    guild_commander_id as int,
                    QuestEvent::Complete,
                )
            } else {
                old(self).quests()
            },
    {
        self.apply(quest_id, guild_commander_id, QuestEvent::Complete)
    }

    /// The commander declares the journey failed. The quest recruits again
    /// and keeps the roster it had.
    pub fn to_failed(&mut self, quest_id: i32, guild_commander_id: i32) -> (r: Result<i32, QuestError>)
        requires
            old(self).wf(),
        ensures
            final(self).wf(),
            final(self).reliable() == old(self).reliable(),
            match r {
                Ok(id) => id == quest_id && command_result(
                    old(self).quests(),
                    quest_id as int,
                    guild_commander_id as int,
                    QuestEvent::Fail,
                ) is Ok,
                Err(refusal) => command_result(
                    old(self).quests(),
                    quest_id as int,
                    guild_commander_id as int,
                    QuestEvent::Fail,
                ) == Err::<QuestStatuses, QuestError>(refusal) || refusal
                    == QuestError::StorageUnavailable,
            },
            r == Err::<i32, QuestError>(QuestError::StorageUnavailable) ==> !old(self).reliable(),
            final(self).quests() == if r is Ok {
                quests_after_command(
                    old(self).quests(),
                    quest_id as int,
                    guild_commander_id as int,
                    QuestEvent::Fail,
                )
            } else {
                old(self).quests()
            },
    {
        self.apply(quest_id, guild_commander_id, QuestEvent::Fail)
    }
}

} // verus!
