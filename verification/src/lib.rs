//! Quest lifecycle and roster engine.
//!
//! A quest is opened by its guild commander, recruits a bounded roster of
//! adventurers while it is `Open` or `Failed`, and is moved through its
//! lifecycle by its commander alone. Every rule is stated over a mathematical
//! model of the two stores the engine works against and is proved for every
//! store that keeps the store contracts.
pub mod application;
pub mod domain;
pub mod infrastructure;
