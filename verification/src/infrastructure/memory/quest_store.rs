use vstd::prelude::*;
use crate::domain::entities::quests::{AddQuestEntity, QuestEntity, QuestEntityView};
use crate::domain::errors::StoreError;
use crate::domain::repositories::quest_store::{accepts, lists, with_status, QuestStore};
use crate::domain::value_objects::board_checking_filter::BoardCheckingFilter;
use crate::domain::value_objects::quest_statuses::QuestStatuses;

verus! {

/// The quests of a sequence in which the quest at position `i` has the
/// identifier `i + 1`.
spec fn quests_by_id(quests: Seq<QuestEntity>) -> Map<int, QuestEntityView> {
    Map::new(|id: int| 1 <= id <= quests.len(), |id: int| quests[id - 1]@)
}

/// Quests kept in memory. Identifiers are given out in order, from 1.
pub struct InMemoryQuestStore {
    quests: Vec<QuestEntity>,
}

impl InMemoryQuestStore {
    /// A store without quests.
    pub fn new() -> (store: Self)
        ensures
            store.wf(),
            store.reliable(),
            store.quests() == Map::<int, QuestEntityView>::empty(),
    {
        let store = InMemoryQuestStore { quests: Vec::new() };
        assert(quests_by_id(store.quests@) =~= Map::<int, QuestEntityView>::empty());
        store
    }

    /// How many quests the store holds.
    pub fn len(&self) -> (n: usize)
        requires
            self.wf(),
        ensures
            n == self.quests().len(),
            forall|id: int| self.quests().contains_key(id) <==> 1 <= id <= n,
    {
        proof {
            lemma_quests_by_id_len(self.quests@);
        }
        self.quests.len()
    }

    /// Opens a new quest and gives its identifier: the next one that is free.
    /// The quest starts out `Open`. `None`, and no change, once the
    /// identifiers have run out.
    pub fn add(&mut self, add_quest_entity: AddQuestEntity) -> (r: Option<i32>)
        requires
            old(self).wf(),
        ensures
            final(self).wf(),
            match r {
                Some(id) => {
                    &&& id == old(self).quests().len() + 1
                    &&& !old(self).quests().contains_key(id as int)
                    &&& final(self).quests() == old(self).quests().insert(
                        id as int,
                        add_quest_entity.opened_as(id as int),
                    )
                },
                None => old(self).quests().len() >= i32::MAX && final(self).quests() == old(
                    self).quests(),
            },
    {
        proof {
            lemma_quests_by_id_len(self.quests@);
        }
        let n = self.quests.len();
        if n >= 0x7fff_ffff {
            return None;
        }
        let id: i32 = (n + 1) as i32;
        let quest = add_quest_entity.into_entity(id);
        self.quests.push(quest);
        assert(quests_by_id(self.quests@) =~= quests_by_id(old(self).quests@).insert(
            id as int,
            add_quest_entity.opened_as(id as int),
        ));
        Some(id)
    }

    /// Whether `quest` passes `filter`: each criterion that is given holds of
    /// it, a text being matched against the whole name.
    fn passes(&self, filter: &BoardCheckingFilter, quest: &QuestEntity) -> (b: bool)
        ensures
            b == accepts(self.text_matcher(), filter@, quest@),
    {
        let status_ok = match filter.status {
            Some(status) => quest.status == status,
            None => true,
        };
        let owner_ok = match filter.guild_commander_id {
            Some(owner) => quest.guild_commander_id == owner,
            None => true,
        };
        let name_ok = match &filter.name {
            Some(text) => quest.name == *text,
            None => true,
        };
        status_ok && owner_ok && name_ok
    }
}

proof fn lemma_quests_by_id_len(quests: Seq<QuestEntity>)
    ensures
        quests_by_id(quests).dom().finite(),
        quests_by_id(quests).len() == quests.len(),
    decreases quests.len(),
{
    if quests.len() == 0 {
        assert(quests_by_id(quests).dom() =~= Set::<int>::empty());
    } else {
        let front = quests.drop_last();
        lemma_quests_by_id_len(front);
        assert(quests_by_id(quests).dom() =~= quests_by_id(front).dom().insert(quests.len() as int));
    }
}

impl QuestStore for InMemoryQuestStore {
    closed spec fn wf(&self) -> bool {
        &&& self.quests.len() <= i32::MAX
        &&& forall|i: int| 0 <= i < self.quests.len() ==> (#[trigger] self.quests[i]).id == i + 1
    }

    closed spec fn quests(&self) -> Map<int, QuestEntityView> {
        quests_by_id(self.quests@)
    }

    /// Quests in memory do not fail.
    open spec fn reliable(&self) -> bool {
        true
    }

    /// A text matches the quest whose name it is, letter for letter.
    open spec fn text_matcher(&self) -> spec_fn(Seq<char>, QuestEntityView) -> bool {
        |text: Seq<char>, quest: QuestEntityView| quest.name == text
    }

    fn get_status(&self, quest_id: i32) -> (r: Result<QuestStatuses, StoreError>)
        ensures
            r is Ok <==> self.quests().contains_key(quest_id as int),
    {
        if quest_id < 1 || quest_id as usize > self.quests.len() {
            return Err(StoreError::NotFound);
        }
        Ok(self.quests[(quest_id - 1) as usize].status)
    }

    fn get(&self, quest_id: i32) -> (r: Result<QuestEntity, StoreError>)
        ensures
            r is Ok <==> self.quests().contains_key(quest_id as int),
    {
        if quest_id < 1 || quest_id as usize > self.quests.len() {
            return Err(StoreError::NotFound);
        }
        Ok(self.quests[(quest_id - 1) as usize].clone())
    }

    /// The quests come in the order of their identifiers.
    fn list(&self, filter: &BoardCheckingFilter) -> (r: Result<Vec<QuestEntity>, StoreError>)
        ensures
            r is Ok,
            forall|i: int, j: int|
                0 <= i < j < r->Ok_0.len() ==> (#[trigger] r->Ok_0[i]).id < (#[trigger] r->Ok_0[j]).id,
    {
        let mut found: Vec<QuestEntity> = Vec::new();
        let mut i: usize = 0;
        while i < self.quests.len()
            invariant
                i <= self.quests.len(),
                self.wf(),
                forall|k: int|
                    0 <= k < found.len() ==> 1 <= (#[trigger] found[k]).id <= i && found[k]@
                        == self.quests[found[k].id - 1]@ && accepts(self.text_matcher(), filter@, found[k]@),
                forall|a: int, b: int|
                    0 <= a < b < found.len() ==> (#[trigger] found[a]).id < (#[trigger] found[b]).id,
                forall|id: int|
                    1 <= id <= i && accepts(self.text_matcher(), filter@, (#[trigger] self.quests[id - 1])@)
                        ==> exists|k: int| 0 <= k < found.len() && (#[trigger] found[k]).id == id,
            decreases self.quests.len() - i,
        {
            let quest = &self.quests[i];
            if self.passes(filter, quest) {
                let ghost before = found@;
                let copy = quest.clone();
                found.push(copy);
                proof {
                    assert forall|id: int|
                        1 <= id <= i + 1 && accepts(self.text_matcher(), filter@,
                            (#[trigger] self.quests[id - 1])@,
                        ) implies exists|k: int|
                        0 <= k < found.len() && (#[trigger] found[k]).id == id by {
                        if id == i + 1 {
                            assert(found[before.len() as int].id == id);
                        } else {
                            let k = choose|k: int|
                                0 <= k < before.len() && (#[trigger] before[k]).id == id;
                            assert(found[k].id == id);
                        }
                    }
                }
            } else {
                proof {
                    assert forall|id: int|
                        1 <= id <= i + 1 && accepts(self.text_matcher(), filter@,
                            (#[trigger] self.quests[id - 1])@,
                        ) implies exists|k: int|
                        0 <= k < found.len() && (#[trigger] found[k]).id == id by {
                        assert(id != i + 1);
                    }
                }
            }
            i += 1;
        }
        proof {
            assert forall|quest_id: int|
                self.quests().contains_key(quest_id) && accepts(
                    self.text_matcher(),
                    filter@,
                    self.quests()[quest_id],
                ) implies #[trigger] lists(found@, quest_id) by {
                assert(accepts(self.text_matcher(), filter@, self.quests[quest_id - 1]@));
            }
        }
        Ok(found)
    }

    fn set_status(
        &mut self,
        quest_id: i32,
        expected_status: QuestStatuses,
        new_status: QuestStatuses,
    ) -> (r: Result<bool, StoreError>)
        ensures
            r is Ok <==> old(self).quests().contains_key(quest_id as int),
    {
        if quest_id < 1 || quest_id as usize > self.quests.len() {
            return Err(StoreError::NotFound);
        }
        let at: usize = (quest_id - 1) as usize;
        if self.quests[at].status != expected_status {
            return Ok(false);
        }
        self.quests[at].status = new_status;
        assert(quests_by_id(self.quests@) =~= with_status(
            quests_by_id(old(self).quests@),
            quest_id as int,
            new_status,
        ));
        Ok(true)
    }
}

} // verus!
