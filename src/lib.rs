//! Shared shopping lists: the data model, the mutation rules with their
//! generation counters, and the decisions of the long-poll protocol.

pub mod laws;
pub mod model;
pub mod store;
