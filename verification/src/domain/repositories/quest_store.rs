use vstd::prelude::*;
use crate::domain::entities::quests::{QuestEntity, QuestEntityView};
use crate::domain::errors::StoreError;
use crate::domain::value_objects::board_checking_filter::{
    BoardCheckingFilter,
    BoardCheckingFilterView,
};
use crate::domain::value_objects::quest_statuses::QuestStatuses;

verus! {

/// The quests with the status of `quest_id` set to `status`.
pub open spec fn with_status(
    quests: Map<int, QuestEntityView>,
    quest_id: int,
    status: QuestStatuses,
) -> Map<int, QuestEntityView> {
    quests.insert(quest_id, quests[quest_id].with_status(status))
}

/// Whether a quest passes a filter: each criterion that is given must hold of
/// the quest, a text being matched by `matcher`.
pub open spec fn accepts(
    matcher: spec_fn(Seq<char>, QuestEntityView) -> bool,
    filter: BoardCheckingFilterView,
    quest: QuestEntityView,
) -> bool {
    &&& filter.status matches Some(status) ==> quest.status == status
    &&& filter.guild_commander_id matches Some(owner) ==> quest.guild_commander_id == owner
    &&& filter.name matches Some(text) ==> matcher(text, quest)
}

/// The quest `quest_id` is among `found`.
pub open spec fn lists(found: Seq<QuestEntity>, quest_id: int) -> bool {
    exists|i: int| 0 <= i < found.len() && (#[trigger] found[i]).id == quest_id
}

/// `found` holds the quests of `quests` that pass `filter`, each once, and
/// nothing else.
pub open spec fn is_listing(
    quests: Map<int, QuestEntityView>,
    matcher: spec_fn(Seq<char>, QuestEntityView) -> bool,
    filter: BoardCheckingFilterView,
    found: Seq<QuestEntity>,
) -> bool {
    &&& forall|i: int|
        0 <= i < found.len() ==> quests.contains_key((#[trigger] found[i]).id as int) && found[i]@
            == quests[found[i].id as int] && accepts(matcher, filter, found[i]@)
    &&& forall|i: int, j: int|
        0 <= i < j < found.len() ==> (#[trigger] found[i]).id != (#[trigger] found[j]).id
    &&& forall|quest_id: int|
        quests.contains_key(quest_id) && accepts(matcher, filter, quests[quest_id])
            ==> #[trigger] lists(found, quest_id)
}

/// A store of quests.
///
/// A store is described by the quests it holds, each under its identifier:
/// `quests()`. A store that is `reliable()` never fails on its own account; of
/// any other, a call may come back with `StoreError::Unavailable`, and has
/// then changed nothing.
///
/// The four descriptions are for stores that are verified against this
/// contract. A store written elsewhere leaves them as they are given here,
/// where they claim nothing: nothing is proved of a run on such a store.
pub trait QuestStore: Sized {
    /// The store's own invariant.
    open spec fn wf(&self) -> bool {
        false
    }

    /// The quests that the store holds, by identifier.
    open spec fn quests(&self) -> Map<int, QuestEntityView> {
        Map::empty()
    }

    /// Whether the store never reports a failure of its own.
    open spec fn reliable(&self) -> bool {
        false
    }

    /// How this store matches a quest against a text that a board is
    /// searched by. The engine leaves the matching of texts to the store.
    open spec fn text_matcher(&self) -> spec_fn(Seq<char>, QuestEntityView) -> bool {
        |text: Seq<char>, quest: QuestEntityView| false
    }

    /// The status of the quest `quest_id`.
    fn get_status(&self, quest_id: i32) -> (r: Result<QuestStatuses, StoreError>)
        requires
            self.wf(),
        ensures
            match r {
                Ok(status) => self.quests().contains_key(quest_id as int) && status
                    == self.quests()[quest_id as int].status,
                Err(StoreError::NotFound) => !self.quests().contains_key(quest_id as int),
                Err(StoreError::Unavailable) => !self.reliable(),
                Err(StoreError::Duplicate) => false,
            },
    ;

    /// The quest `quest_id`.
    fn get(&self, quest_id: i32) -> (r: Result<QuestEntity, StoreError>)
        requires
            self.wf(),
        ensures
            match r {
                Ok(quest) => self.quests().contains_key(quest_id as int) && quest@
                    == self.quests()[quest_id as int] && quest.id == quest_id,
                Err(StoreError::NotFound) => !self.quests().contains_key(quest_id as int),
                Err(StoreError::Unavailable) => !self.reliable(),
                Err(StoreError::Duplicate) => false,
            },
    ;

    /// The quests that pass `filter`, each once.
    fn list(&self, filter: &BoardCheckingFilter) -> (r: Result<Vec<QuestEntity>, StoreError>)
        requires
            self.wf(),
        ensures
            match r {
                Ok(found) => is_listing(self.quests(), self.text_matcher(), filter@, found@),
                Err(error) => error == StoreError::Unavailable && !self.reliable(),
            },
    ;

    /// Moves the quest `quest_id` to the status `new_status` if its status is
    /// `expected_status`, and says whether it did. Nothing else of the quest
    /// changes, and no other quest.
    fn set_status(
        &mut self,
        quest_id: i32,
        expected_status: QuestStatuses,
        new_status: QuestStatuses,
    ) -> (r: Result<bool, StoreError>)
        requires
            old(self).wf(),
        ensures
            final(self).wf(),
            final(self).reliable() == old(self).reliable(),
            match r {
                Ok(true) => old(self).quests().contains_key(quest_id as int) && old(self).quests()[quest_id as int].status == expected_status && final(self).quests()
                    == with_status(old(self).quests(), quest_id as int, new_status),
                Ok(false) => old(self).quests().contains_key(quest_id as int) && old(self).quests()[quest_id as int].status != expected_status && final(self).quests()
                    == old(self).quests(),
                Err(StoreError::NotFound) => !old(self).quests().contains_key(quest_id as int)
                    && final(self).quests() == old(self).quests(),
                Err(StoreError::Unavailable) => !old(self).reliable() && final(self).quests()
                    == old(self).quests(),
                Err(StoreError::Duplicate) => false,
            },
    ;
}

} // verus!
