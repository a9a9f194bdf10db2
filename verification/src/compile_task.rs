//! The compile phase: one rule per compilation unit, run over the stale
//! subset.
//!
//! A rule holds one source file, the dependency paths the compiler reported
//! for it, their modification times as observed by the caller at construction
//! time, and the derived object-file path with its modification time (absent
//! when the object has never been built).  The compile phase is the ordered
//! set of rules discovered in the source tree; its plan compiles exactly the
//! stale ones, in discovery order.

use crate::commands::{compile_command, compile_model, Command, CommandModel};
use crate::paths::{is_source_name_spec, join_path, joined_spec, object_file_name, object_name_spec};
use crate::staleness::{is_stale, stale_spec};
use crate::task::Task;
use vstd::prelude::*;

verus! {

/// One compilation unit: a source file, its reported dependencies with their
/// modification times, and its object-file target with its modification time.
pub struct Rule {
    /// Absolute path of the source file.
    pub input: String,
    /// The dependency paths reported for the unit; never empty.
    pub dependencies: Vec<String>,
    /// The modification time of each dependency, aligned with `dependencies`.
    pub dep_times: Vec<u64>,
    /// Absolute path of the unit's object file.
    pub output: String,
    /// The object file's modification time, or `None` when it is absent.
    pub output_time: Option<u64>,
}

impl Rule {
    /// One modification time per dependency, and at least the unit's own
    /// source among the dependencies.
    pub open spec fn wf(&self) -> bool {
        &&& self.dep_times@.len() == self.dependencies@.len()
        &&& self.dependencies@.len() >= 1
    }

    /// The staleness predicate applied to the rule's object file and
    /// dependency times.
    pub open spec fn stale(&self) -> bool {
        stale_spec(self.output_time, self.dep_times@)
    }

    /// Constructs the rule for one discovered source file.
    ///
    /// `file_name` is the bare source file name; the source path and the
    /// object path are derived from it under the two roots.  `deps` and
    /// `dep_times` are the compiler-reported dependency paths and their
    /// observed modification times; when the reported list is empty the unit
    /// still depends on its own source, whose modification time is
    /// `input_time`.  `output_time` is the object file's modification time,
    /// absent when it has never been built.
    pub fn new(
        source_dir: &str,
        out_dir: &str,
        file_name: &str,
        deps: Vec<String>,
        dep_times: Vec<u64>,
        input_time: u64,
        output_time: Option<u64>,
    ) -> (r: Rule)
        requires
            is_source_name_spec(file_name@),
            deps@.len() == dep_times@.len(),
        ensures
            r.wf(),
            r.input@ == joined_spec(source_dir@, file_name@),
            r.output@ == joined_spec(out_dir@, object_name_spec(file_name@)),
            r.output_time == output_time,
            deps@.len() > 0 ==> r.dependencies == deps && r.dep_times == dep_times,
            deps@.len() == 0 ==> r.dependencies.deep_view() == seq![r.input@] && r.dep_times@
                == seq![input_time],
    {
        let input = join_path(source_dir, file_name);
        let object_name = object_file_name(file_name);
        let output = join_path(out_dir, object_name.as_str());
        if deps.len() > 0 {
            Rule { input, dependencies: deps, dep_times, output, output_time }
        } else {
            let mut self_deps: Vec<String> = Vec::new();
            self_deps.push(input.clone());
            let mut self_times: Vec<u64> = Vec::new();
            self_times.push(input_time);
            let r = Rule {
                input,
                dependencies: self_deps,
                dep_times: self_times,
                output,
                output_time,
            };
            proof {
                assert(r.dependencies.deep_view() =~~= seq![r.input@]);
                assert(r.dep_times@ =~= seq![input_time]);
            }
            r
        }
    }
}

impl Task for Rule {
    open spec fn wf(&self) -> bool {
        self.wf()
    }

    open spec fn stale(&self) -> bool {
        self.stale()
    }

    open spec fn plan(&self) -> Seq<CommandModel> {
        seq![compile_model(self.input@, self.output@)]
    }

    fn is_stale(&self) -> (r: bool) {
        is_stale(self.output_time, &self.dep_times)
    }

    fn run(&self) -> (cmds: Vec<Command>) {
        let mut cmds: Vec<Command> = Vec::new();
        cmds.push(compile_command(self.input.as_str(), self.output.as_str()));
        proof {
            assert(cmds.deep_view() =~~= seq![compile_model(self.input@, self.output@)]);
        }
        cmds
    }
}

/// Collapses the observed modification times of a unit's dependencies.
///
/// A dependency that cannot be observed (`None`) — a file deleted after a
/// stale dependency list reported it — is a hard error at rule-construction
/// time, never a silently fresh or silently stale unit: the result names the
/// first vanished dependency's index, and is `Ok` exactly when every
/// dependency was observed.
pub fn dependency_times(observed: Vec<Option<u64>>) -> (r: Result<Vec<u64>, usize>)
    ensures
        r is Ok <==> (forall|i: int| 0 <= i < observed@.len() ==> (#[trigger] observed@[i]) is Some),
        r is Ok ==> r->Ok_0@.len() == observed@.len() && (forall|i: int|
            0 <= i < observed@.len() ==> (#[trigger] r->Ok_0@[i]) == observed@[i]->0),
        r is Err ==> 0 <= r->Err_0 < observed@.len() && observed@[r->Err_0 as int] is None,
{
    let mut times: Vec<u64> = Vec::new();
    let mut i: usize = 0;
    while i < observed.len()
        invariant
            0 <= i <= observed@.len(),
            times@.len() == i,
            forall|j: int| 0 <= j < i ==> (#[trigger] observed@[j]) is Some,
            forall|j: int| 0 <= j < i ==> (#[trigger] times@[j]) == observed@[j]->0,
        decreases observed@.len() - i,
    {
        match observed[i] {
            Some(t) => {
                times.push(t);
            },
            None => {
                assert(observed@[i as int] is None);
                return Err(i);
            },
        }
        i += 1;
    }
    Ok(times)
}

/// The compile invocations of the stale rules, in order.
pub open spec fn compile_plan_spec(rules: Seq<Rule>) -> Seq<CommandModel>
    decreases rules.len(),
{
    if rules.len() == 0 {
        Seq::empty()
    } else {
        let rest = compile_plan_spec(rules.drop_last());
        if rules.last().stale() {
            rest.push(compile_model(rules.last().input@, rules.last().output@))
        } else {
            rest
        }
    }
}

/// The compile phase: every rule discovered in the source tree, in discovery
/// order.
pub struct CompileTask {
    /// The phase's rules, in discovery order.
    pub inputs: Vec<Rule>,
}

impl CompileTask {
    /// Constructs the phase over the given rules.
    pub fn new(rules: Vec<Rule>) -> (t: CompileTask)
        requires
            forall|i: int| 0 <= i < rules@.len() ==> #[trigger] rules@[i].wf(),
        ensures
            t.inputs == rules,
            t.wf(),
    {
        CompileTask { inputs: rules }
    }
}

impl Task for CompileTask {
    open spec fn wf(&self) -> bool {
        forall|i: int| 0 <= i < self.inputs@.len() ==> #[trigger] self.inputs@[i].wf()
    }

    /// The compile phase is evaluated on every run.
    open spec fn stale(&self) -> bool {
        true
    }

    open spec fn plan(&self) -> Seq<CommandModel> {
        compile_plan_spec(self.inputs@)
    }

    fn is_stale(&self) -> (r: bool) {
        true
    }

    /// Filters the rules to the stale subset and plans one compile invocation
    /// for each, in discovery order.
    fn run(&self) -> (cmds: Vec<Command>) {
        let mut cmds: Vec<Command> = Vec::new();
        let mut j: usize = 0;
        proof {
            assert(self.inputs@.take(0) =~= Seq::<Rule>::empty());
            assert(cmds.deep_view() =~~= compile_plan_spec(self.inputs@.take(0)));
        }
        while j < self.inputs.len()
            invariant
                self.wf(),
                0 <= j <= self.inputs@.len(),
                cmds.deep_view() == compile_plan_spec(self.inputs@.take(j as int)),
            decreases self.inputs@.len() - j,
        {
            proof {
                assert(self.inputs@.take(j + 1).drop_last() =~= self.inputs@.take(j as int));
                assert(self.inputs@.take(j + 1).last() == self.inputs@[j as int]);
            }
            let rule = &self.inputs[j];
            if rule.is_stale() {
                let ghost before = cmds.deep_view();
                cmds.push(compile_command(rule.input.as_str(), rule.output.as_str()));
                proof {
                    assert(cmds.deep_view() =~~= before.push(
                        compile_model(rule.input@, rule.output@),
                    ));
                }
            }
            j += 1;
        }
        proof {
            assert(self.inputs@.take(self.inputs@.len() as int) =~= self.inputs@);
        }
        cmds
    }
}

} // verus!
