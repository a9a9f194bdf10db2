use rebuild::commands::{compile_command, dep_query_command, link_command};
use rebuild::compile_task::{dependency_times, CompileTask, Rule};
use rebuild::link_task::LinkTask;
use rebuild::names::{lex_le_str, select_objects, select_sources};
use rebuild::orchestrator::{
    all_units_ok, exit_code, run_outcome, step, Event, Phase, RunOutcome,
};
use rebuild::task::Task;

fn strings(v: &[&str]) -> Vec<String> {
    v.iter().map(|s| s.to_string()).collect()
}

fn rule(file_name: &str, deps: &[&str], dep_times: &[u64], output_time: Option<u64>) -> Rule {
    Rule::new(
        "/p/src",
        "/p/out",
        file_name,
        strings(deps),
        dep_times.to_vec(),
        0,
        output_time,
    )
}

#[test]
fn rule_derives_paths() {
    let r = rule("a.cpp", &["a.cpp", "a.h"], &[5, 6], Some(7));
    assert_eq!(r.input, "/p/src/a.cpp");
    assert_eq!(r.output, "/p/out/a.o");
    assert_eq!(r.dependencies, strings(&["a.cpp", "a.h"]));
    assert_eq!(r.dep_times, vec![5, 6]);
    assert_eq!(r.output_time, Some(7));
}

#[test]
fn rule_with_no_reported_dependencies_is_self_dependent() {
    let r = Rule::new("/p/src", "/p/out", "a.cpp", Vec::new(), Vec::new(), 42, None);
    assert_eq!(r.dependencies, strings(&["/p/src/a.cpp"]));
    assert_eq!(r.dep_times, vec![42]);
}

#[test]
fn rule_staleness_follows_the_predicate() {
    assert!(rule("a.cpp", &["a.cpp"], &[5], None).is_stale());
    assert!(rule("a.cpp", &["a.cpp", "a.h"], &[5, 9], Some(8)).is_stale());
    assert!(!rule("a.cpp", &["a.cpp", "a.h"], &[5, 8], Some(8)).is_stale());
}

#[test]
fn vanished_dependency_is_a_hard_error() {
    assert_eq!(dependency_times(vec![Some(1), None, Some(3)]), Err(1));
    assert_eq!(dependency_times(vec![Some(1), Some(2)]), Ok(vec![1, 2]));
    assert_eq!(dependency_times(Vec::new()), Ok(Vec::new()));
}

#[test]
fn command_shapes() {
    let q = dep_query_command("/p/src/a.cpp");
    assert_eq!(q.program, "g++");
    assert_eq!(q.args, strings(&["/p/src/a.cpp", "-MM"]));

    let c = compile_command("/p/src/a.cpp", "/p/out/a.o");
    assert_eq!(c.program, "g++");
    assert_eq!(c.args, strings(&["/p/src/a.cpp", "-o", "/p/out/a.o", "-c"]));

    let l = link_command(&strings(&["/p/out/a.o", "/p/out/b.o"]), "/p/out/target");
    assert_eq!(l.program, "g++");
    assert_eq!(
        l.args,
        strings(&["/p/out/a.o", "/p/out/b.o", "-o", "/p/out/target"])
    );
}

#[test]
fn empty_project_plans_nothing_and_succeeds() {
    let compile = CompileTask::new(Vec::new());
    assert!(compile.is_stale());
    assert!(compile.run().is_empty());

    let link = LinkTask::new("/p/out", Vec::new(), Vec::new(), None);
    assert!(link.run().is_empty());

    let results: Vec<bool> = Vec::new();
    assert!(all_units_ok(&results));
    let outcome = run_outcome(&results, None);
    assert_eq!(outcome, RunOutcome::Success);
    assert_eq!(exit_code(outcome), 0);
}

#[test]
fn first_build_compiles_and_links() {
    let compile = CompileTask::new(vec![rule("a.cpp", &["a.cpp"], &[5], None)]);
    let cmds = compile.run();
    assert_eq!(cmds.len(), 1);
    assert_eq!(cmds[0].args, strings(&["/p/src/a.cpp", "-o", "/p/out/a.o", "-c"]));

    let link = LinkTask::new("/p/out", strings(&["/p/out/a.o"]), vec![6], None);
    assert!(link.is_stale());
    let lcmds = link.run();
    assert_eq!(lcmds.len(), 1);
    assert_eq!(lcmds[0].args, strings(&["/p/out/a.o", "-o", "/p/out/target"]));
    assert_eq!(run_outcome(&vec![true], Some(true)), RunOutcome::Success);
}

#[test]
fn fresh_project_plans_no_work() {
    let compile = CompileTask::new(vec![rule("a.cpp", &["a.cpp", "a.h"], &[3, 4], Some(9))]);
    assert!(compile.run().is_empty());

    let link = LinkTask::new("/p/out", strings(&["/p/out/a.o"]), vec![9], Some(12));
    assert!(!link.is_stale());
    assert!(link.run().is_empty());
    assert_eq!(run_outcome(&vec![], None), RunOutcome::Success);
}

#[test]
fn touched_header_recompiles_only_its_unit_then_relinks() {
    let a = rule("a.cpp", &["a.cpp", "a.h"], &[3, 20], Some(9));
    let b = rule("b.cpp", &["b.cpp"], &[3], Some(9));
    let compile = CompileTask::new(vec![a, b]);
    let cmds = compile.run();
    assert_eq!(cmds.len(), 1);
    assert_eq!(cmds[0].args, strings(&["/p/src/a.cpp", "-o", "/p/out/a.o", "-c"]));

    let link = LinkTask::new(
        "/p/out",
        strings(&["/p/out/a.o", "/p/out/b.o"]),
        vec![21, 9],
        Some(12),
    );
    assert!(link.is_stale());
    assert_eq!(link.run().len(), 1);
}

#[test]
fn failing_unit_keeps_sibling_in_plan_but_skips_link() {
    let a = rule("a.cpp", &["a.cpp"], &[8], Some(4));
    let b = rule("b.cpp", &["b.cpp"], &[8], Some(4));
    let compile = CompileTask::new(vec![a, b]);
    let cmds = compile.run();
    assert_eq!(cmds.len(), 2);
    assert_eq!(cmds[1].args, strings(&["/p/src/b.cpp", "-o", "/p/out/b.o", "-c"]));

    let results = vec![false, true];
    assert!(!all_units_ok(&results));
    assert_eq!(
        step(Phase::Compiling, Event::CompileFinished(all_units_ok(&results))),
        Phase::Failed
    );
    let outcome = run_outcome(&results, None);
    assert_eq!(outcome, RunOutcome::UnitFailure);
    assert_eq!(exit_code(outcome), 1);
}

#[test]
fn link_failure_fails_the_run() {
    assert_eq!(run_outcome(&vec![true], Some(false)), RunOutcome::LinkFailure);
    assert_eq!(exit_code(RunOutcome::LinkFailure), 2);
    assert_eq!(step(Phase::Linking, Event::LinkFinished(false)), Phase::Failed);
}

#[test]
fn state_machine_transitions() {
    assert_eq!(step(Phase::Idle, Event::RunRequested), Phase::Compiling);
    assert_eq!(step(Phase::Compiling, Event::CompileFinished(true)), Phase::Linking);
    assert_eq!(step(Phase::Compiling, Event::CompileFinished(false)), Phase::Failed);
    assert_eq!(step(Phase::Linking, Event::LinkFinished(true)), Phase::Done);
    assert_eq!(step(Phase::Done, Event::RunRequested), Phase::Done);
}

#[test]
fn discovery_keeps_sources_sorted() {
    let names = strings(&["z.cpp", "readme.md", "a.cc", "b.cpp", "a.h", "b.o"]);
    let sources = select_sources(&names);
    assert_eq!(sources, strings(&["a.cc", "b.cpp", "z.cpp"]));
}

#[test]
fn discovery_keeps_objects_sorted() {
    let names = strings(&["target", "b.o", "a.o", "a.cpp"]);
    let objects = select_objects(&names);
    assert_eq!(objects, strings(&["a.o", "b.o"]));
}

#[test]
fn lexicographic_order_on_names() {
    assert!(lex_le_str("a.o", "b.o"));
    assert!(!lex_le_str("b.o", "a.o"));
    assert!(lex_le_str("a", "a"));
    assert!(lex_le_str("a", "ab"));
    assert!(!lex_le_str("ab", "a"));
}
