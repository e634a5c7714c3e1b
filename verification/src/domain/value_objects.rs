//! Plain values exchanged between the engine, the stores and the boundary.
pub mod board_checking_filter;
pub mod quest_adventurer_junction;
pub mod quest_model;
pub mod quest_statuses;
