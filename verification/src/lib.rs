//! Idempotent project-setup orchestration: status detection for four setup
//! stages (scaffold, version control, remote repository, deployment),
//! dependency-ordered planning, per-stage failure policy, and the parsing of
//! interactive input and collaborator output.
//!
//! All external effects (process invocation, filesystem probes, terminal I/O)
//! happen outside this crate; the functions here take the observed facts as
//! plain values and are verified for every possible observation.

pub mod command;
pub mod input;
pub mod stage;
pub mod status;
pub mod text;
pub mod url;
pub mod workflow;

use vstd::prelude::*;

verus! {

} // verus!
