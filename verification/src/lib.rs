//! Query-URL builders for the BoardGameGeek XML API: typed request builders
//! for the `thing` and `collection` actions, serialized to a canonical,
//! deterministic query string.

pub mod collection;
pub mod date;
pub mod laws;
pub mod render;
pub mod sorted;
pub mod thing;
pub mod types;
