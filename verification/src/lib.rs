//! Keeps the CPU frequency-scaling policy of an AMD P-State EPP machine in
//! step with the desktop power profile.
//!
//! The library holds the model and the decisions, and does no I/O: its
//! caller reads and writes the sysfs files and talks to the profile service.
//!
//! - `text`, `decimal`: the lexical layer for the contents of sysfs files.
//! - `vocabulary`: closed vocabularies with one token for each value.
//! - `cpu`: logical CPUs and the list notation that enumerates them.
//! - `amd_pstate`, `policy`: the attributes that are read and set.
//! - `profile`: the power profiles and the policy that each asks for.
//! - `precondition`: what must hold of the machine before anything is set.
//! - `engine`: reconciliation of the CPUs with the policy of a profile.

pub mod amd_pstate;
pub mod cpu;
pub mod decimal;
pub mod engine;
pub mod error;
pub mod policy;
pub mod precondition;
pub mod profile;
pub mod text;
pub mod vocabulary;
