use vstd::prelude::*;
use crate::domain::value_objects::quest_statuses::QuestStatuses;

verus! {

/// What a quest board is searched by. A criterion that is `None` accepts every
/// quest.
#[derive(Debug)]
pub struct BoardCheckingFilter {
    pub name: Option<String>,
    pub status: Option<QuestStatuses>,
    pub guild_commander_id: Option<i32>,
}

pub struct BoardCheckingFilterView {
    pub name: Option<Seq<char>>,
    pub status: Option<QuestStatuses>,
    pub guild_commander_id: Option<int>,
}

impl View for BoardCheckingFilter {
    type V = BoardCheckingFilterView;

    open spec fn view(&self) -> BoardCheckingFilterView {
        BoardCheckingFilterView {
            name: match self.name {
                Some(text) => Some(text@),
                None => None,
            },
            status: self.status,
            guild_commander_id: match self.guild_commander_id {
                Some(id) => Some(id as int),
                None => None,
            },
        }
    }
}

impl Clone for BoardCheckingFilter {
    fn clone(&self) -> (copy: Self)
        ensures
            copy == *self,
    {
        BoardCheckingFilter {
            name: match &self.name {
                Some(text) => Some(text.clone()),
                None => None,
            },
            status: self.status,
            guild_commander_id: self.guild_commander_id,
        }
    }
}

} // verus!
