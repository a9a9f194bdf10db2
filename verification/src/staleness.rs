//! The staleness predicate shared by both build phases.
//!
//! An artifact with declared inputs is stale when the artifact is absent, or
//! when some input's modification time is strictly greater than the
//! artifact's.  Modification times are plain `u64` ticks supplied by the
//! caller; `None` stands for an absent artifact.

use vstd::prelude::*;

verus! {

/// The single staleness predicate: the artifact is absent, or some input is
/// strictly newer than it.
pub open spec fn stale_spec(artifact: Option<u64>, inputs: Seq<u64>) -> bool {
    match artifact {
        None => true,
        Some(t) => exists|i: int| 0 <= i < inputs.len() && inputs[i] > t,
    }
}

/// Decides staleness of an artifact against its inputs' modification times.
pub fn is_stale(artifact: Option<u64>, inputs: &Vec<u64>) -> (r: bool)
    ensures
        r == stale_spec(artifact, inputs@),
{
    match artifact {
        None => true,
        Some(t) => {
            let mut i: usize = 0;
            while i < inputs.len()
                invariant
                    artifact == Some(t),
                    0 <= i <= inputs.len(),
                    forall|j: int| 0 <= j < i ==> !(inputs@[j] > t),
                decreases inputs.len() - i,
            {
                if inputs[i] > t {
                    assert(inputs@[i as int] > t);
                    return true;
                }
                i += 1;
            }
            false
        },
    }
}

/// An absent artifact is always stale, whatever its inputs.
pub proof fn lemma_absent_artifact_is_stale(inputs: Seq<u64>)
    ensures
        stale_spec(None, inputs),
{
}

/// For an existing artifact, staleness holds exactly when some input is
/// strictly newer; in particular an input with the same modification time as
/// the artifact does not make it stale.
pub proof fn lemma_existing_artifact_staleness(t: u64, inputs: Seq<u64>)
    ensures
        stale_spec(Some(t), inputs) <==> exists|i: int| 0 <= i < inputs.len() && inputs[i] > t,
        (forall|i: int| 0 <= i < inputs.len() ==> inputs[i] <= t) ==> !stale_spec(Some(t), inputs),
{
}

} // verus!
