use vstd::prelude::*;
use crate::domain::value_objects::quest_model::{QuestModel, QuestModelView};
use crate::domain::value_objects::quest_statuses::QuestStatuses;

verus! {

/// `chrono::NaiveDateTime`, a calendar date and time of day without a time
/// zone. Nothing is claimed of it: the engine carries such a value from a
/// stored quest into the views built from it and never looks inside.
#[verifier::external_type_specification]
#[verifier::external_body]
pub struct ExNaiveDateTime(chrono::NaiveDateTime);

/// A quest as a quest store keeps it.
///
/// `guild_commander_id` names the commander who opened the quest. No operation
/// of the engine changes it, nor `id`.
#[derive(Debug)]
pub struct QuestEntity {
    pub id: i32,
    pub name: String,
    pub description: Option<String>,
    pub status: QuestStatuses,
    pub guild_commander_id: i32,
    pub created_at: chrono::NaiveDateTime,
    pub updated_at: chrono::NaiveDateTime,
}

pub struct QuestEntityView {
    pub id: int,
    pub name: Seq<char>,
    pub description: Option<Seq<char>>,
    pub status: QuestStatuses,
    pub guild_commander_id: int,
    pub created_at: chrono::NaiveDateTime,
    pub updated_at: chrono::NaiveDateTime,
}

impl QuestEntityView {
    /// The same quest in another status.
    pub open spec fn with_status(self, status: QuestStatuses) -> QuestEntityView {
        QuestEntityView { status, ..self }
    }

    /// The quest as the board shows it when `adventurers_count` adventurers
    /// are on it.
    pub open spec fn to_model(self, adventurers_count: nat) -> QuestModelView {
        QuestModelView {
            id: self.id,
            name: self.name,
            description: self.description,
            status: self.status,
            guild_commander_id: self.guild_commander_id,
            adventurers_count,
            created_at: self.created_at,
            updated_at: self.updated_at,
        }
    }
}

impl View for QuestEntity {
    type V = QuestEntityView;

    open spec fn view(&self) -> QuestEntityView {
        QuestEntityView {
            id: self.id as int,
            name: self.name@,
            description: match self.description {
                Some(text) => Some(text@),
                None => None,
            },
            status: self.status,
            guild_commander_id: self.guild_commander_id as int,
            created_at: self.created_at,
            updated_at: self.updated_at,
        }
    }
}

/// A copy of an optional text.
fn clone_text(text: &Option<String>) -> (copy: Option<String>)
    ensures
        copy == *text,
{
    match text {
        Some(inner) => Some(inner.clone()),
        None => None,
    }
}

impl Clone for QuestEntity {
    fn clone(&self) -> (copy: Self)
        ensures
            copy == *self,
    {
        QuestEntity {
            id: self.id,
            name: self.name.clone(),
            description: clone_text(&self.description),
            status: self.status,
            guild_commander_id: self.guild_commander_id,
            created_at: self.created_at,
            updated_at: self.updated_at,
        }
    }
}

impl QuestEntity {
    /// Composes the board's view of this quest from the quest and the number
    /// of adventurers on it.
    pub fn to_model(&self, adventurers_count: u64) -> (model: QuestModel)
        ensures
            model@ == self@.to_model(adventurers_count as nat),
    {
        QuestModel {
            id: self.id,
            name: self.name.clone(),
            description: clone_text(&self.description),
            status: self.status,
            guild_commander_id: self.guild_commander_id,
            adventurers_count,
            created_at: self.created_at,
            updated_at: self.updated_at,
        }
    }
}

/// A quest that is about to be opened: everything but the identifier, which
/// the store assigns, and the status, which is `Open` for every new quest.
#[derive(Debug)]
pub struct AddQuestEntity {
    pub name: String,
    pub description: Option<String>,
    pub guild_commander_id: i32,
    pub created_at: chrono::NaiveDateTime,
    pub updated_at: chrono::NaiveDateTime,
}

impl AddQuestEntity {
    /// The stored quest that this becomes under the identifier `id`.
    pub open spec fn opened_as(self, id: int) -> QuestEntityView {
        QuestEntityView {
            id,
            name: self.name@,
            description: match self.description {
                Some(text) => Some(text@),
                None => None,
            },
            status: QuestStatuses::Open,
            guild_commander_id: self.guild_commander_id as int,
            created_at: self.created_at,
            updated_at: self.updated_at,
        }
    }

    /// Opens the quest under the identifier `id`.
    pub fn into_entity(self, id: i32) -> (quest: QuestEntity)
        ensures
            quest@ == self.opened_as(id as int),
    {
        QuestEntity {
            id,
            name: self.name,
            description: self.description,
            status: QuestStatuses::Open,
            guild_commander_id: self.guild_commander_id,
            created_at: self.created_at,
            updated_at: self.updated_at,
        }
    }
}

} // verus!
