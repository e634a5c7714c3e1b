//! What the boundary calls.
pub mod use_cases;
