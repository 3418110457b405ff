//! Translation of CoSERV query results into the condition/addition relations
//! that an appraisal engine matches evidence against, and an in-memory store
//! that accumulates them.

pub mod values;
pub mod result;
pub mod ect;
pub mod relation;
pub mod coserv;
pub mod translate;
pub mod store;
