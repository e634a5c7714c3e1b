//! Stores that keep everything in memory. They fail on no account of their
//! own, and stand in for a database wherever none is at hand.
pub mod quest_store;
pub mod roster_store;
