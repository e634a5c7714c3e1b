//! The rules of the domain: data, errors, the lifecycle table, the roster
//! rules and the contracts of the stores.
pub mod entities;
pub mod errors;
pub mod lifecycle;
pub mod repositories;
pub mod roster_rules;
pub mod value_objects;
