//! Verified logic of an orchestrator that supervises `OpenCode` sessions.

pub mod api;
pub mod blockers;
pub mod catalog;
pub mod delta_buffer;
pub mod errors;
pub mod format;
pub mod format_laws;
pub mod idle;
pub mod latch;
pub mod lineage;
pub mod outcome;
pub mod records;
pub mod request;
pub mod respond;
pub mod respond_laws;
pub mod run;
pub mod run_laws;
pub mod run_model;
pub mod run_step_laws;
pub mod scan;
pub mod selection;
pub mod sessions;
pub mod text;
pub mod tools;
pub mod transcript;
pub mod types;

pub use vstd::hash_map::StringHashMap;
pub use vstd::hash_set::StringHashSet;
