//! The operations of the engine: roster changes, lifecycle commands and the
//! quest board.
pub mod crew_switchboard;
pub mod journey_ledger;
pub mod quest_viewing;
