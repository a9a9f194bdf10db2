//! An incremental build orchestrator's decision core.
//!
//! The library decides which compilation units of a flat source tree need
//! recompiling and whether the final binary needs relinking, given plain
//! filesystem facts (file names and modification times) gathered by the
//! caller.  All external effects — scanning directories, reading timestamps,
//! spawning the compiler and linker — stay with the caller; the library
//! computes the exact tool invocations to perform and the run's outcome.

pub mod commands;
pub mod compile_task;
pub mod deps;
pub mod guarantees;
pub mod link_task;
pub mod names;
pub mod orchestrator;
pub mod paths;
pub mod staleness;
pub mod task;
