use vstd::prelude::*;
use crate::domain::errors::StoreError;
use crate::domain::value_objects::quest_adventurer_junction::QuestAdventurerJunction;

verus! {

/// The adventurers on the quest `quest_id` in a roster of (quest, adventurer)
/// pairs.
pub open spec fn members_of(roster: Set<(int, int)>, quest_id: int) -> Set<int> {
    Set::new(|adventurer_id: int| roster.contains((quest_id, adventurer_id)))
}

/// How many adventurers are on the quest `quest_id`.
pub open spec fn occupancy(roster: Set<(int, int)>, quest_id: int) -> nat {
    members_of(roster, quest_id).len()
}

/// No quest of the roster holds more than `max_adventurers` adventurers.
pub open spec fn within_capacity(roster: Set<(int, int)>, max_adventurers: nat) -> bool {
    forall|quest_id: int| #[trigger] occupancy(roster, quest_id) <= max_adventurers
}

/// The adventurers on one quest of a finite roster are finitely many, and no
/// more than the roster has entries.
pub proof fn lemma_members_finite(roster: Set<(int, int)>, quest_id: int)
    requires
        roster.finite(),
    ensures
        members_of(roster, quest_id).finite(),
        occupancy(roster, quest_id) <= roster.len(),
    decreases roster.len(),
{
    if roster.is_empty() {
        assert(members_of(roster, quest_id) =~= Set::<int>::empty());
    } else {
        let entry = roster.choose();
        let rest = roster.remove(entry);
        lemma_members_finite(rest, quest_id);
        if entry.0 == quest_id {
            assert(members_of(roster, quest_id) =~= members_of(rest, quest_id).insert(entry.1));
        } else {
            assert(members_of(roster, quest_id) =~= members_of(rest, quest_id));
        }
    }
}

/// A new entry adds one adventurer to its quest and leaves every other quest
/// as it was.
pub proof fn lemma_occupancy_after_insert(roster: Set<(int, int)>, entry: (int, int), quest_id: int)
    requires
        roster.finite(),
        !roster.contains(entry),
    ensures
        occupancy(roster.insert(entry), quest_id) == if quest_id == entry.0 {
            occupancy(roster, quest_id) + 1
        } else {
            occupancy(roster, quest_id)
        },
{
    lemma_members_finite(roster, quest_id);
    if quest_id == entry.0 {
        assert(members_of(roster.insert(entry), quest_id) =~= members_of(roster, quest_id).insert(
            entry.1,
        ));
    } else {
        assert(members_of(roster.insert(entry), quest_id) =~= members_of(roster, quest_id));
    }
}

/// Taking an entry away frees one place on its quest and leaves every other
/// quest as it was.
pub proof fn lemma_occupancy_after_remove(roster: Set<(int, int)>, entry: (int, int), quest_id: int)
    requires
        roster.finite(),
        roster.contains(entry),
    ensures
        occupancy(roster.remove(entry), quest_id) == if quest_id == entry.0 {
            occupancy(roster, quest_id) - 1
        } else {
            occupancy(roster, quest_id) as int
        },
{
    lemma_members_finite(roster, quest_id);
    if quest_id == entry.0 {
        assert(members_of(roster.remove(entry), quest_id) =~= members_of(roster, quest_id).remove(
            entry.1,
        ));
    } else {
        assert(members_of(roster.remove(entry), quest_id) =~= members_of(roster, quest_id));
    }
}

/// A store of roster entries: which adventurer is on which quest.
///
/// A store is described by the set of its entries, `roster()`, which is
/// finite. A store that is `reliable()` never fails on its own account; of
/// any other, a call may come back with `StoreError::Unavailable`, and has
/// then changed nothing.
///
/// The three descriptions are for stores that are verified against this
/// contract. A store written elsewhere leaves them as they are given here,
/// where they claim nothing: nothing is proved of a run on such a store.
pub trait RosterStore: Sized {
    /// The store's own invariant.
    open spec fn wf(&self) -> bool {
        false
    }

    /// The (quest, adventurer) pairs that the store holds.
    open spec fn roster(&self) -> Set<(int, int)> {
        Set::empty()
    }

    /// Whether the store never reports a failure of its own.
    open spec fn reliable(&self) -> bool {
        false
    }

    /// How many adventurers are on the quest `quest_id`.
    fn count(&self, quest_id: i32) -> (r: Result<u64, StoreError>)
        requires
            self.wf(),
        ensures
            self.roster().finite(),
            match r {
                Ok(n) => n == occupancy(self.roster(), quest_id as int),
                Err(error) => error == StoreError::Unavailable && !self.reliable(),
            },
    ;

    /// Whether the store holds the entry.
    fn contains(&self, junction: QuestAdventurerJunction) -> (r: Result<bool, StoreError>)
        requires
            self.wf(),
        ensures
            self.roster().finite(),
            match r {
                Ok(found) => found == self.roster().contains(junction@),
                Err(error) => error == StoreError::Unavailable && !self.reliable(),
            },
    ;

    /// Adds the entry, unless the store holds it already.
    fn insert(&mut self, junction: QuestAdventurerJunction) -> (r: Result<(), StoreError>)
        requires
            old(self).wf(),
        ensures
            final(self).wf(),
            final(self).reliable() == old(self).reliable(),
            old(self).roster().finite(),
            match r {
                Ok(()) => !old(self).roster().contains(junction@) && final(self).roster() == old(
                    self).roster().insert(junction@),
                Err(StoreError::Duplicate) => old(self).roster().contains(junction@) && final(
                    self).roster() == old(self).roster(),
                Err(StoreError::Unavailable) => !old(self).reliable() && final(self).roster()
                    == old(self).roster(),
                Err(StoreError::NotFound) => false,
            },
    ;

    /// Takes the entry away. Where the store does not hold it, nothing
    /// changes and the call succeeds all the same.
    fn delete(&mut self, junction: QuestAdventurerJunction) -> (r: Result<(), StoreError>)
        requires
            old(self).wf(),
        ensures
            final(self).wf(),
            final(self).reliable() == old(self).reliable(),
            old(self).roster().finite(),
            match r {
                Ok(()) => final(self).roster() == old(self).roster().remove(junction@),
                Err(error) => error == StoreError::Unavailable && !old(self).reliable() && final(
                    self).roster() == old(self).roster(),
            },
    ;
}

} // verus!
