use vstd::prelude::*;
use crate::domain::errors::StoreError;
use crate::domain::repositories::roster_store::{
    lemma_occupancy_after_insert,
    occupancy,
    RosterStore,
};
use crate::domain::value_objects::quest_adventurer_junction::QuestAdventurerJunction;

verus! {

/// The pairs that a sequence of entries holds.
spec fn entry_set(entries: Seq<QuestAdventurerJunction>) -> Set<(int, int)> {
    Set::new(|pair: (int, int)| exists|i: int| 0 <= i < entries.len() && (#[trigger] entries[i])@ == pair)
}

/// No entry occurs twice.
spec fn distinct_entries(entries: Seq<QuestAdventurerJunction>) -> bool {
    forall|i: int, j: int|
        0 <= i < j < entries.len() ==> (#[trigger] entries[i])@ != (#[trigger] entries[j])@
}

proof fn lemma_entry_set_push(entries: Seq<QuestAdventurerJunction>, entry: QuestAdventurerJunction)
    ensures
        entry_set(entries.push(entry)) == entry_set(entries).insert(entry@),
{
    let longer = entries.push(entry);
    assert forall|pair: (int, int)| entry_set(longer).contains(pair) implies entry_set(
        entries,
    ).insert(entry@).contains(pair) by {
        let i = choose|i: int| 0 <= i < longer.len() && (#[trigger] longer[i])@ == pair;
        if i < entries.len() {
            assert(entries[i]@ == pair);
        }
    }
    assert forall|pair: (int, int)| entry_set(entries).insert(entry@).contains(pair) implies entry_set(
        longer,
    ).contains(pair) by {
        if pair == entry@ {
            assert(longer[entries.len() as int]@ == pair);
        } else {
            let i = choose|i: int| 0 <= i < entries.len() && (#[trigger] entries[i])@ == pair;
            assert(longer[i]@ == pair);
        }
    }
    assert(entry_set(longer) =~= entry_set(entries).insert(entry@));
}

proof fn lemma_entry_set_finite(entries: Seq<QuestAdventurerJunction>)
    ensures
        entry_set(entries).finite(),
    decreases entries.len(),
{
    if entries.len() == 0 {
        assert(entry_set(entries) =~= Set::<(int, int)>::empty());
    } else {
        lemma_entry_set_finite(entries.drop_last());
        lemma_entry_set_push(entries.drop_last(), entries.last());
        assert(entries.drop_last().push(entries.last()) =~= entries);
    }
}

proof fn lemma_entry_set_remove(entries: Seq<QuestAdventurerJunction>, at: int)
    requires
        distinct_entries(entries),
        0 <= at < entries.len(),
    ensures
        distinct_entries(entries.remove(at)),
        entry_set(entries.remove(at)) == entry_set(entries).remove(entries[at]@),
{
    let shorter = entries.remove(at);
    assert forall|i: int, j: int| 0 <= i < j < shorter.len() implies (#[trigger] shorter[i])@ != (
    #[trigger] shorter[j])@ by {
        let oi = if i < at { i } else { i + 1 };
        let oj = if j < at { j } else { j + 1 };
        assert(shorter[i] == entries[oi]);
        assert(shorter[j] == entries[oj]);
    }
    assert forall|pair: (int, int)| entry_set(shorter).contains(pair) implies entry_set(
        entries,
    ).remove(entries[at]@).contains(pair) by {
        let i = choose|i: int| 0 <= i < shorter.len() && (#[trigger] shorter[i])@ == pair;
        let oi = if i < at { i } else { i + 1 };
        assert(shorter[i] == entries[oi]);
        assert(entries[oi]@ == pair);
        if oi < at {
            assert(entries[oi]@ != entries[at]@);
        } else {
            assert(entries[at]@ != entries[oi]@);
        }
    }
    assert forall|pair: (int, int)| entry_set(entries).remove(entries[at]@).contains(pair) implies entry_set(
        shorter,
    ).contains(pair) by {
        let oi = choose|i: int| 0 <= i < entries.len() && (#[trigger] entries[i])@ == pair;
        let i = if oi < at { oi } else { oi - 1 };
        assert(shorter[i] == entries[oi]);
        assert(shorter[i]@ == pair);
    }
    assert(entry_set(shorter) =~= entry_set(entries).remove(entries[at]@));
}

/// A roster kept in memory, in the order in which the adventurers joined.
pub struct InMemoryRosterStore {
    entries: Vec<QuestAdventurerJunction>,
}

impl InMemoryRosterStore {
    /// An empty roster.
    pub fn new() -> (store: Self)
        ensures
            store.wf(),
            store.reliable(),
            store.roster() == Set::<(int, int)>::empty(),
    {
        let store = InMemoryRosterStore { entries: Vec::new() };
        assert(entry_set(store.entries@) =~= Set::<(int, int)>::empty());
        store
    }

    /// A roster in memory holds finitely many entries.
    pub proof fn lemma_roster_finite(&self)
        ensures
            self.roster().finite(),
    {
        lemma_entry_set_finite(self.entries@);
    }

    /// How many entries the roster holds over all quests.
    pub fn len(&self) -> (n: usize)
        requires
            self.wf(),
        ensures
            n == self.roster().len(),
    {
        proof {
            lemma_entry_set_len(self.entries@);
        }
        self.entries.len()
    }

    /// Where the entry stands, if the roster holds it.
    fn position(&self, junction: QuestAdventurerJunction) -> (at: Option<usize>)
        ensures
            match at {
                Some(i) => i < self.entries.len() && self.entries[i as int]@ == junction@,
                None => !entry_set(self.entries@).contains(junction@),
            },
    {
        let mut i: usize = 0;
        while i < self.entries.len()
            invariant
                i <= self.entries.len(),
                forall|k: int| 0 <= k < i ==> (#[trigger] self.entries[k])@ != junction@,
            decreases self.entries.len() - i,
        {
            let entry = self.entries[i];
            if entry.quest_id == junction.quest_id && entry.adventurer_id == junction.adventurer_id {
                return Some(i);
            }
            i += 1;
        }
        None
    }
}

proof fn lemma_entry_set_len(entries: Seq<QuestAdventurerJunction>)
    requires
        distinct_entries(entries),
    ensures
        entry_set(entries).finite(),
        entry_set(entries).len() == entries.len(),
    decreases entries.len(),
{
    lemma_entry_set_finite(entries);
    if entries.len() == 0 {
        assert(entry_set(entries) =~= Set::<(int, int)>::empty());
    } else {
        let front = entries.drop_last();
        lemma_entry_set_len(front);
        lemma_entry_set_push(front, entries.last());
        assert(front.push(entries.last()) =~= entries);
        assert(!entry_set(front).contains(entries.last()@)) by {
            if entry_set(front).contains(entries.last()@) {
                let i = choose|i: int| 0 <= i < front.len() && (#[trigger] front[i])@ == entries.last()@;
                assert(entries[i]@ != entries[entries.len() - 1]@);
            }
        }
    }
}

impl RosterStore for InMemoryRosterStore {
    closed spec fn wf(&self) -> bool {
        distinct_entries(self.entries@)
    }

    closed spec fn roster(&self) -> Set<(int, int)> {
        entry_set(self.entries@)
    }

    /// A roster in memory does not fail.
    open spec fn reliable(&self) -> bool {
        true
    }

    fn count(&self, quest_id: i32) -> (r: Result<u64, StoreError>)
        ensures
            r is Ok,
    {
        let mut n: u64 = 0;
        let mut i: usize = 0;
        proof {
            lemma_entry_set_finite(self.entries@);
            assert(self.entries@.take(0) =~= Seq::<QuestAdventurerJunction>::empty());
            assert(entry_set(self.entries@.take(0)) =~= Set::<(int, int)>::empty());
            assert(crate::domain::repositories::roster_store::members_of(
                Set::<(int, int)>::empty(),
                quest_id as int,
            ) =~= Set::<int>::empty());
        }
        while i < self.entries.len()
            invariant
                i <= self.entries.len(),
                distinct_entries(self.entries@),
                n <= i,
                n == occupancy(entry_set(self.entries@.take(i as int)), quest_id as int),
            decreases self.entries.len() - i,
        {
            let entry = self.entries[i];
            proof {
                let front = self.entries@.take(i as int);
                assert(self.entries@.take(i + 1) =~= front.push(entry));
                lemma_entry_set_push(front, entry);
                lemma_entry_set_finite(front);
                assert(!entry_set(front).contains(entry@)) by {
                    if entry_set(front).contains(entry@) {
                        let k = choose|k: int| 0 <= k < front.len() && (#[trigger] front[k])@ == entry@;
                        assert(self.entries[k]@ != self.entries[i as int]@);
                    }
                }
                lemma_occupancy_after_insert(entry_set(front), entry@, quest_id as int);
            }
            if entry.quest_id == quest_id {
                n = n + 1;
            }
            i += 1;
        }
        proof {
            assert(self.entries@.take(self.entries.len() as int) =~= self.entries@);
        }
        Ok(n)
    }

    fn contains(&self, junction: QuestAdventurerJunction) -> (r: Result<bool, StoreError>)
        ensures
            r is Ok,
    {
        proof {
            lemma_entry_set_finite(self.entries@);
        }
        Ok(self.position(junction).is_some())
    }

    fn insert(&mut self, junction: QuestAdventurerJunction) -> (r: Result<(), StoreError>)
        ensures
            r is Ok <==> !old(self).roster().contains(junction@),
    {
        proof {
            lemma_entry_set_finite(self.entries@);
        }
        match self.position(junction) {
            Some(_) => Err(StoreError::Duplicate),
            None => {
                proof {
                    lemma_entry_set_push(self.entries@, junction);
                }
                self.entries.push(junction);
                Ok(())
            },
        }
    }

    fn delete(&mut self, junction: QuestAdventurerJunction) -> (r: Result<(), StoreError>)
        ensures
            r is Ok,
    {
        proof {
            lemma_entry_set_finite(self.entries@);
        }
        match self.position(junction) {
            Some(at) => {
                proof {
                    lemma_entry_set_remove(self.entries@, at as int);
                }
                self.entries.remove(at);
                Ok(())
            },
            None => {
                assert(entry_set(self.entries@).remove(junction@) =~= entry_set(self.entries@));
                Ok(())
            },
        }
    }
}

} // verus!
