use vstd::prelude::*;

verus! {

/// How many adventurers a quest holds at most, unless an engine is set up
/// with another bound.
pub const MAX_ADVENTURERS_PER_QUEST: u64 = 4;

/// One roster entry: an adventurer who is on a quest.
#[derive(Clone, Copy, Debug, PartialEq, Eq, Structural)]
pub struct QuestAdventurerJunction {
    pub adventurer_id: i32,
    pub quest_id: i32,
}

impl View for QuestAdventurerJunction {
    type V = (int, int);

    /// The pair (quest, adventurer).
    open spec fn view(&self) -> (int, int) {
        (self.quest_id as int, self.adventurer_id as int)
    }
}

} // verus!
