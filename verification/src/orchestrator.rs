//! Sequencing of the two phases and the run's overall outcome.
//!
//! A run moves through a small state machine: it starts compiling, and links
//! only when every unit build succeeded; a unit failure skips the link phase
//! and the run reports failure.  The link phase itself may fail, which also
//! fails the run.

use vstd::prelude::*;

verus! {

/// The states of one run.
#[derive(Clone, Copy, PartialEq, Eq, Structural, Debug)]
pub enum Phase {
    /// No run in progress.
    Idle,
    /// The compile phase is running.
    Compiling,
    /// Every unit build succeeded; the link phase is running.
    Linking,
    /// A unit build or the link failed; the run reports failure.
    Failed,
    /// The run completed successfully.
    Done,
}

/// The events that drive a run forward.
#[derive(Clone, Copy, PartialEq, Eq, Structural, Debug)]
pub enum Event {
    /// A run was requested.
    RunRequested,
    /// The compile phase finished; `true` when every unit build succeeded.
    CompileFinished(bool),
    /// The link phase finished; `true` when the linker succeeded.
    LinkFinished(bool),
}

/// A run's overall outcome.
#[derive(Clone, Copy, PartialEq, Eq, Structural, Debug)]
pub enum RunOutcome {
    /// Every unit up to date or rebuilt, and the artifact up to date or
    /// relinked.
    Success,
    /// Some unit build failed; the link phase was skipped.
    UnitFailure,
    /// Every unit build succeeded but the link failed.
    LinkFailure,
}

/// The transition relation of a run: compile, then link only when every unit
/// succeeded.  An event that does not apply to the state leaves it unchanged.
pub open spec fn next_phase_spec(p: Phase, e: Event) -> Phase {
    match (p, e) {
        (Phase::Idle, Event::RunRequested) => Phase::Compiling,
        (Phase::Compiling, Event::CompileFinished(ok)) => if ok {
            Phase::Linking
        } else {
            Phase::Failed
        },
        (Phase::Linking, Event::LinkFinished(ok)) => if ok {
            Phase::Done
        } else {
            Phase::Failed
        },
        _ => p,
    }
}

/// Advances the run's state machine by one event.
pub fn step(p: Phase, e: Event) -> (r: Phase)
    ensures
        r == next_phase_spec(p, e),
{
    match (p, e) {
        (Phase::Idle, Event::RunRequested) => Phase::Compiling,
        (Phase::Compiling, Event::CompileFinished(ok)) => if ok {
            Phase::Linking
        } else {
            Phase::Failed
        },
        (Phase::Linking, Event::LinkFinished(ok)) => if ok {
            Phase::Done
        } else {
            Phase::Failed
        },
        _ => p,
    }
}

/// Every unit build reported success.
pub open spec fn all_ok_spec(results: Seq<bool>) -> bool {
    forall|i: int| 0 <= i < results.len() ==> results[i]
}

/// Whether every unit build of the compile phase succeeded.
pub fn all_units_ok(results: &Vec<bool>) -> (r: bool)
    ensures
        r == all_ok_spec(results@),
{
    let mut i: usize = 0;
    while i < results.len()
        invariant
            0 <= i <= results@.len(),
            forall|j: int| 0 <= j < i ==> results@[j],
        decreases results@.len() - i,
    {
        if !results[i] {
            assert(!results@[i as int]);
            return false;
        }
        i += 1;
    }
    true
}

/// The outcome a run reports, given the per-unit build results and the link
/// result (`None` when no link was attempted).
pub open spec fn outcome_spec(results: Seq<bool>, link_ok: Option<bool>) -> RunOutcome {
    if !all_ok_spec(results) {
        RunOutcome::UnitFailure
    } else if link_ok == Some(false) {
        RunOutcome::LinkFailure
    } else {
        RunOutcome::Success
    }
}

/// Determines a run's overall outcome: a unit failure dominates, then a link
/// failure; otherwise the run succeeded.
pub fn run_outcome(results: &Vec<bool>, link_ok: Option<bool>) -> (o: RunOutcome)
    ensures
        o == outcome_spec(results@, link_ok),
{
    if !all_units_ok(results) {
        RunOutcome::UnitFailure
    } else if link_ok == Some(false) {
        RunOutcome::LinkFailure
    } else {
        RunOutcome::Success
    }
}

/// The process exit code of an outcome: zero exactly on success.
pub fn exit_code(o: RunOutcome) -> (r: i32)
    ensures
        (r == 0) <==> o == RunOutcome::Success,
        o == RunOutcome::UnitFailure ==> r == 1,
        o == RunOutcome::LinkFailure ==> r == 2,
{
    match o {
        RunOutcome::Success => 0,
        RunOutcome::UnitFailure => 1,
        RunOutcome::LinkFailure => 2,
    }
}

} // verus!
