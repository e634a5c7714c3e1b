//! What the stores keep.
pub mod quests;
