//! A tick-driven task core for a population of worker agents in a
//! resource-gathering simulation.
//!
//! Each tick the host supplies a plain-data snapshot of the world; the
//! library decides, for every agent, which task it performs, persists that
//! decision in an [`store::AssignmentStore`], and plans exactly one command
//! per agent. Exclusivity rules (at most one depositor, one constructor,
//! one live repairer, one live harvester per node) are stated as contracts
//! and proved.

pub mod assigner;
pub mod executor;
pub mod geom;
pub mod laws;
pub mod model;
pub mod query;
pub mod spawning;
pub mod store;
