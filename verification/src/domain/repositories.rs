//! The contracts of the two stores that the engine works against.
pub mod quest_store;
pub mod roster_store;
