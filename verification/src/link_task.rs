//! The link phase: the object files present in the output tree, linked into
//! the final artifact when any of them is newer than it.
//!
//! The phase is re-enumerated fresh each run, after the compile phase, so
//! that the object inventory reflects the latest compile outcome.  Linking is
//! skipped when there is nothing to link, and when the final artifact is
//! newer than every object.

use crate::commands::{link_command, link_model, Command, CommandModel};
use crate::paths::joined_spec;
use crate::staleness::{is_stale, stale_spec};
use crate::task::Task;
use vstd::prelude::*;

verus! {

/// The final artifact's file name under the output root.
pub open spec fn target_name() -> Seq<char> {
    seq!['t', 'a', 'r', 'g', 'e', 't']
}

/// The link phase: the object files present in the output tree and the final
/// artifact they link into.
pub struct LinkTask {
    /// The object-file paths, in discovery order.
    pub inputs: Vec<String>,
    /// The modification time of each object file, aligned with `inputs`.
    pub input_times: Vec<u64>,
    /// The final artifact's path.
    pub output: String,
    /// The final artifact's modification time, or `None` when it is absent.
    pub output_time: Option<u64>,
}

/// The link invocations the phase performs: none when there is nothing to
/// link or the artifact is up to date, else the one link invocation over
/// every object.
pub open spec fn link_plan_spec(t: LinkTask) -> Seq<CommandModel> {
    if t.inputs@.len() == 0 || !stale_spec(t.output_time, t.input_times@) {
        Seq::empty()
    } else {
        seq![link_model(t.inputs.deep_view(), t.output@)]
    }
}

impl LinkTask {
    /// One modification time per object file.
    pub open spec fn wf(&self) -> bool {
        self.input_times@.len() == self.inputs@.len()
    }

    /// The staleness predicate applied to the final artifact and the object
    /// files' times.
    pub open spec fn stale(&self) -> bool {
        stale_spec(self.output_time, self.input_times@)
    }

    /// Constructs the phase from the object-file paths found in the output
    /// tree, their observed modification times, and the final artifact's
    /// path under the output root with its modification time (absent when it
    /// has never been linked).
    pub fn new(
        out_dir: &str,
        objects: Vec<String>,
        object_times: Vec<u64>,
        output_time: Option<u64>,
    ) -> (t: LinkTask)
        requires
            objects@.len() == object_times@.len(),
        ensures
            t.wf(),
            t.inputs == objects,
            t.input_times == object_times,
            t.output@ == joined_spec(out_dir@, target_name()),
            t.output_time == output_time,
    {
        proof {
            reveal_strlit("target");
            assert("target"@ =~= target_name());
        }
        let output = crate::paths::join_path(out_dir, "target");
        LinkTask { inputs: objects, input_times: object_times, output, output_time }
    }
}

impl Task for LinkTask {
    open spec fn wf(&self) -> bool {
        self.wf()
    }

    open spec fn stale(&self) -> bool {
        self.stale()
    }

    open spec fn plan(&self) -> Seq<CommandModel> {
        link_plan_spec(*self)
    }

    fn is_stale(&self) -> (r: bool) {
        is_stale(self.output_time, &self.input_times)
    }

    /// Plans the one link invocation when there are objects and the artifact
    /// is stale, and nothing otherwise.
    fn run(&self) -> (cmds: Vec<Command>) {
        let mut cmds: Vec<Command> = Vec::new();
        if self.inputs.len() == 0 {
            proof {
                assert(cmds.deep_view() =~~= Seq::<CommandModel>::empty());
            }
            return cmds;
        }
        if !is_stale(self.output_time, &self.input_times) {
            proof {
                assert(cmds.deep_view() =~~= Seq::<CommandModel>::empty());
            }
            return cmds;
        }
        cmds.push(link_command(&self.inputs, self.output.as_str()));
        proof {
            assert(cmds.deep_view() =~~= seq![link_model(self.inputs.deep_view(), self.output@)]);
        }
        cmds
    }
}

} // verus!
