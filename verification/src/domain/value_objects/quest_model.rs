use vstd::prelude::*;
use crate::domain::value_objects::quest_statuses::QuestStatuses;

verus! {

/// What a reader of the quest board sees of one quest: the stored quest and
/// how many adventurers are on it.
#[derive(Debug)]
pub struct QuestModel {
    pub id: i32,
    pub name: String,
    pub description: Option<String>,
    pub status: QuestStatuses,
    pub guild_commander_id: i32,
    pub adventurers_count: u64,
    pub created_at: chrono::NaiveDateTime,
    pub updated_at: chrono::NaiveDateTime,
}

pub struct QuestModelView {
    pub id: int,
    pub name: Seq<char>,
    pub description: Option<Seq<char>>,
    pub status: QuestStatuses,
    pub guild_commander_id: int,
    pub adventurers_count: nat,
    pub created_at: chrono::NaiveDateTime,
    pub updated_at: chrono::NaiveDateTime,
}

impl View for QuestModel {
    type V = QuestModelView;

    open spec fn view(&self) -> QuestModelView {
        QuestModelView {
            id: self.id as int,
            name: self.name@,
            description: match self.description {
                Some(text) => Some(text@),
                None => None,
            },
            status: self.status,
            guild_commander_id: self.guild_commander_id as int,
            adventurers_count: self.adventurers_count as nat,
            created_at: self.created_at,
            updated_at: self.updated_at,
        }
    }
}

impl Clone for QuestModel {
    fn clone(&self) -> (copy: Self)
        ensures
            copy == *self,
    {
        QuestModel {
            id: self.id,
            name: self.name.clone(),
            description: match &self.description {
                Some(text) => Some(text.clone()),
                None => None,
            },
            status: self.status,
            guild_commander_id: self.guild_commander_id,
            adventurers_count: self.adventurers_count,
            created_at: self.created_at,
            updated_at: self.updated_at,
        }
    }
}

} // verus!
