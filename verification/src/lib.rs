//! Identifiers for configuration entries: a literal name, or a regular
//! expression that is compiled as one group between the anchors for the very
//! start and the very end of a candidate, so that it has to match the whole
//! of it.

pub mod engine;
pub mod entry;
pub mod ident;
pub mod identifiable;
pub mod matchable;
pub mod pattern;
pub mod table;
