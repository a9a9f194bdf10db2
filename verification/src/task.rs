//! The shared capability of both build phases.
//!
//! A task knows whether it is stale and which tool invocations it requires
//! when run.  The compile phase and the link phase each implement it; a
//! caller performs the returned invocations and depends on nothing else.

use crate::commands::{Command, CommandModel};
use vstd::prelude::*;

verus! {

/// A unit of buildable work: it can report its staleness and the tool
/// invocations a run of it performs.
pub trait Task {
    /// The task's internal well-formedness.
    spec fn wf(&self) -> bool;

    /// Whether the task's artifact is out of date.
    spec fn stale(&self) -> bool;

    /// The tool invocations a run of the task performs, in order.
    spec fn plan(&self) -> Seq<CommandModel>;

    /// Reports whether the task's artifact is out of date.
    fn is_stale(&self) -> (r: bool)
        requires
            self.wf(),
        ensures
            r == self.stale(),
    ;

    /// Computes the tool invocations a run of the task performs, in order.
    fn run(&self) -> (cmds: Vec<Command>)
        requires
            self.wf(),
        ensures
            cmds.deep_view() == self.plan(),
    ;
}

} // verus!
