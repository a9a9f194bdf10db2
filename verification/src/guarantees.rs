//! The engine's rebuild guarantees, stated and proved over the phase models.
//!
//! These proof functions relate the state of a project before and after a
//! run: a completed run leaves nothing to do, touching one dependency
//! rebuilds exactly its unit and relinks, and one unit's failure neither
//! removes sibling units from the plan nor lets the run link or succeed.

use crate::commands::{compile_model, link_model, CommandModel};
use crate::compile_task::{compile_plan_spec, Rule};
use crate::link_task::{link_plan_spec, LinkTask};
use crate::orchestrator::{all_ok_spec, next_phase_spec, outcome_spec, Event, Phase, RunOutcome};
use vstd::prelude::*;

verus! {

/// When no rule is stale, the compile phase plans no invocation.
pub proof fn lemma_compile_plan_none_stale(rules: Seq<Rule>)
    requires
        forall|i: int| 0 <= i < rules.len() ==> !(#[trigger] rules[i]).stale(),
    ensures
        compile_plan_spec(rules) == Seq::<CommandModel>::empty(),
    decreases rules.len(),
{
    if rules.len() > 0 {
        assert forall|i: int| 0 <= i < rules.drop_last().len() implies !(#[trigger] rules.drop_last()[i]).stale() by {
            assert(rules.drop_last()[i] == rules[i]);
        }
        lemma_compile_plan_none_stale(rules.drop_last());
        assert(!rules[rules.len() - 1].stale());
        assert(compile_plan_spec(rules) =~= Seq::<CommandModel>::empty());
    } else {
        assert(compile_plan_spec(rules) =~= Seq::<CommandModel>::empty());
    }
}

/// Every stale rule's compile invocation is in the compile phase's plan: one
/// unit's failure or staleness never removes a sibling from the plan.
pub proof fn lemma_compile_plan_covers(rules: Seq<Rule>, i: int)
    requires
        0 <= i < rules.len(),
        rules[i].stale(),
    ensures
        compile_plan_spec(rules).contains(compile_model(rules[i].input@, rules[i].output@)),
    decreases rules.len(),
{
    let cmd = compile_model(rules[i].input@, rules[i].output@);
    let rest = compile_plan_spec(rules.drop_last());
    if i == rules.len() - 1 {
        assert(compile_plan_spec(rules) == rest.push(cmd));
        assert(compile_plan_spec(rules)[rest.len() as int] == cmd);
    } else {
        assert(rules.drop_last()[i] == rules[i]);
        lemma_compile_plan_covers(rules.drop_last(), i);
        let n = choose|n: int| 0 <= n < rest.len() && rest[n] == cmd;
        if rules[rules.len() - 1].stale() {
            let last_cmd = compile_model(
                rules[rules.len() - 1].input@,
                rules[rules.len() - 1].output@,
            );
            assert(compile_plan_spec(rules) == rest.push(last_cmd));
            assert(compile_plan_spec(rules)[n] == cmd);
        } else {
            assert(compile_plan_spec(rules) == rest);
        }
    }
}

/// When exactly one rule is stale, the compile phase plans exactly its
/// compile invocation and no other.
pub proof fn lemma_compile_plan_single(rules: Seq<Rule>, k: int)
    requires
        0 <= k < rules.len(),
        forall|i: int| 0 <= i < rules.len() ==> ((#[trigger] rules[i]).stale() <==> i == k),
    ensures
        compile_plan_spec(rules) == seq![compile_model(rules[k].input@, rules[k].output@)],
    decreases rules.len(),
{
    let cmd = compile_model(rules[k].input@, rules[k].output@);
    if k == rules.len() - 1 {
        assert forall|i: int| 0 <= i < rules.drop_last().len() implies !(#[trigger] rules.drop_last()[i]).stale() by {
            assert(rules.drop_last()[i] == rules[i]);
        }
        lemma_compile_plan_none_stale(rules.drop_last());
        assert(rules[k].stale());
        assert(compile_plan_spec(rules) =~= seq![cmd]);
    } else {
        assert forall|i: int| 0 <= i < rules.drop_last().len() implies ((
        #[trigger] rules.drop_last()[i]).stale() <==> i == k) by {
            assert(rules.drop_last()[i] == rules[i]);
        }
        assert(rules.drop_last()[k] == rules[k]);
        lemma_compile_plan_single(rules.drop_last(), k);
        assert(!rules[rules.len() - 1].stale());
        assert(compile_plan_spec(rules) == compile_plan_spec(rules.drop_last()));
    }
}

/// The state of the compile phase's rules after a run over `before`: the
/// dependency sets and their times are unchanged, every stale rule got its
/// object rebuilt no earlier than any of its dependencies, and every fresh
/// rule kept its object untouched.
pub open spec fn compiled_from(before: Seq<Rule>, after: Seq<Rule>) -> bool {
    &&& after.len() == before.len()
    &&& forall|i: int|
        0 <= i < before.len() ==> (#[trigger] after[i]).dep_times@ == before[i].dep_times@
    &&& forall|i: int|
        0 <= i < before.len() && before[i].stale() ==> (#[trigger] after[i]).output_time is Some
    &&& forall|i: int, j: int|
        0 <= i < before.len() && before[i].stale() && 0 <= j < after[i].dep_times@.len()
            ==> (#[trigger] after[i].dep_times@[j]) <= after[i].output_time->0
    &&& forall|i: int|
        0 <= i < before.len() && !before[i].stale() ==> (#[trigger] after[i]).output_time
            == before[i].output_time
}

/// The state of the link phase after a run that succeeded: the final
/// artifact exists and is at least as new as every object file, either
/// because it was just linked after the last compile, or because it was
/// already fresh and no object changed.
pub open spec fn binary_fresh(l: LinkTask) -> bool {
    &&& l.output_time is Some
    &&& forall|j: int|
        0 <= j < l.input_times@.len() ==> (#[trigger] l.input_times@[j]) <= l.output_time->0
}

/// Idempotence of the pipeline: after a run in which every stale unit was
/// rebuilt and the final artifact ended at least as new as every object, a
/// second run with no intervening filesystem change finds no stale unit and
/// plans zero compiler and zero linker invocations.
pub proof fn lemma_pipeline_idempotent(before: Seq<Rule>, after: Seq<Rule>, link_after: LinkTask)
    requires
        compiled_from(before, after),
        binary_fresh(link_after),
    ensures
        forall|i: int| 0 <= i < after.len() ==> !(#[trigger] after[i]).stale(),
        compile_plan_spec(after) == Seq::<CommandModel>::empty(),
        !link_after.stale(),
        link_plan_spec(link_after) == Seq::<CommandModel>::empty(),
{
    assert forall|i: int| 0 <= i < after.len() implies !(#[trigger] after[i]).stale() by {
        if before[i].stale() {
            assert(after[i].output_time is Some);
        } else {
            assert(after[i].dep_times@ == before[i].dep_times@);
            assert(after[i].output_time == before[i].output_time);
        }
    }
    lemma_compile_plan_none_stale(after);
}

/// Monotonic rebuild, compile side: starting from a project with nothing
/// stale, advancing the modification time of one dependency of one unit past
/// that unit's object makes exactly that unit stale, and the next run plans
/// exactly its compile invocation.
pub proof fn lemma_monotonic_rebuild(
    before: Seq<Rule>,
    touched: Seq<Rule>,
    k: int,
    j: int,
    t: u64,
)
    requires
        before.len() == touched.len(),
        0 <= k < before.len(),
        forall|i: int| 0 <= i < before.len() && i != k ==> #[trigger] touched[i] == before[i],
        forall|i: int| 0 <= i < before.len() ==> !(#[trigger] before[i]).stale(),
        0 <= j < before[k].dep_times@.len(),
        touched[k].output_time == before[k].output_time,
        touched[k].dep_times@ == before[k].dep_times@.update(j, t),
        t > before[k].output_time->0,
    ensures
        forall|i: int| 0 <= i < touched.len() ==> ((#[trigger] touched[i]).stale() <==> i == k),
        compile_plan_spec(touched) == seq![compile_model(touched[k].input@, touched[k].output@)],
{
    assert forall|i: int| 0 <= i < touched.len() implies ((#[trigger] touched[i]).stale() <==> i
        == k) by {
        if i == k {
            assert(touched[k].dep_times@[j] == t);
            assert(touched[k].stale());
        } else {
            assert(touched[i] == before[i]);
        }
    }
    lemma_compile_plan_single(touched, k);
}

/// Monotonic rebuild, link side: once some object file is strictly newer
/// than the final artifact, the link phase is stale and plans exactly one
/// link invocation over every object.
pub proof fn lemma_rebuild_relinks(l: LinkTask, m: int)
    requires
        l.wf(),
        l.output_time is Some,
        0 <= m < l.input_times@.len(),
        l.input_times@[m] > l.output_time->0,
    ensures
        l.stale(),
        link_plan_spec(l) == seq![link_model(l.inputs.deep_view(), l.output@)],
{
    assert(l.inputs@.len() > 0);
}

/// Failure isolation: when unit `a`'s build fails while unit `b`'s does not,
/// `b`'s compile invocation was nonetheless in the plan, the run does not
/// move to the link phase, and the run's outcome is a unit failure.
pub proof fn lemma_failure_isolation(rules: Seq<Rule>, results: Seq<bool>, a: int, b: int)
    requires
        results.len() == rules.len(),
        0 <= a < rules.len(),
        0 <= b < rules.len(),
        !results[a],
        results[b],
        rules[b].stale(),
    ensures
        compile_plan_spec(rules).contains(compile_model(rules[b].input@, rules[b].output@)),
        !all_ok_spec(results),
        next_phase_spec(Phase::Compiling, Event::CompileFinished(all_ok_spec(results)))
            == Phase::Failed,
        outcome_spec(results, None) == RunOutcome::UnitFailure,
{
    lemma_compile_plan_covers(rules, b);
}

} // verus!
