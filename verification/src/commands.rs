//! The external tool invocations the engine can ask for.
//!
//! The engine never spawns a process itself: it computes a [`Command`] — a
//! program name and its arguments — and the caller performs it.  Both the
//! dependency query and the compile step invoke the compiler binary; the link
//! step invokes the same binary as the linker driver.

use vstd::prelude::*;

verus! {

/// The mathematical model of a tool invocation.
#[verifier::ext_equal]
pub struct CommandModel {
    /// The program to run.
    pub program: Seq<char>,
    /// Its arguments, in order.
    pub args: Seq<Seq<char>>,
}

/// One tool invocation: a program name and its arguments, in order.
pub struct Command {
    /// The program to run.
    pub program: String,
    /// Its arguments, in order.
    pub args: Vec<String>,
}

impl View for Command {
    type V = CommandModel;

    open spec fn view(&self) -> CommandModel {
        CommandModel { program: self.program@, args: self.args.deep_view() }
    }
}

impl DeepView for Command {
    type V = CommandModel;

    open spec fn deep_view(&self) -> CommandModel {
        self.view()
    }
}

/// The compiler (and linker driver) binary.
pub open spec fn compiler_name() -> Seq<char> {
    seq!['g', '+', '+']
}

/// The compiler's dependency-listing flag.
pub open spec fn dep_flag() -> Seq<char> {
    seq!['-', 'M', 'M']
}

/// The output-path flag.
pub open spec fn out_flag() -> Seq<char> {
    seq!['-', 'o']
}

/// The compile-only flag.
pub open spec fn compile_only_flag() -> Seq<char> {
    seq!['-', 'c']
}

/// The dependency query for one source file.
pub open spec fn dep_query_model(input: Seq<char>) -> CommandModel {
    CommandModel { program: compiler_name(), args: seq![input, dep_flag()] }
}

/// The compile invocation for one source file and its object path.
pub open spec fn compile_model(input: Seq<char>, output: Seq<char>) -> CommandModel {
    CommandModel {
        program: compiler_name(),
        args: seq![input, out_flag(), output, compile_only_flag()],
    }
}

/// The link invocation for a set of object paths and the final artifact.
pub open spec fn link_model(objects: Seq<Seq<char>>, output: Seq<char>) -> CommandModel {
    CommandModel { program: compiler_name(), args: objects + seq![out_flag(), output] }
}

/// Builds the dependency query for one source file.
pub fn dep_query_command(input: &str) -> (c: Command)
    ensures
        c@ == dep_query_model(input@),
{
    proof {
        reveal_strlit("g++");
        reveal_strlit("-MM");
        assert("g++"@ =~= compiler_name());
        assert("-MM"@ =~= dep_flag());
    }
    let mut args: Vec<String> = Vec::new();
    args.push(String::from_str(input));
    args.push(String::from_str("-MM"));
    let c = Command { program: String::from_str("g++"), args };
    proof {
        assert(c@.args =~~= dep_query_model(input@).args);
        assert(c@ =~~= dep_query_model(input@));
    }
    c
}

/// Builds the compile invocation for one source file and its object path.
pub fn compile_command(input: &str, output: &str) -> (c: Command)
    ensures
        c@ == compile_model(input@, output@),
{
    proof {
        reveal_strlit("g++");
        reveal_strlit("-o");
        reveal_strlit("-c");
        assert("g++"@ =~= compiler_name());
        assert("-o"@ =~= out_flag());
        assert("-c"@ =~= compile_only_flag());
    }
    let mut args: Vec<String> = Vec::new();
    args.push(String::from_str(input));
    args.push(String::from_str("-o"));
    args.push(String::from_str(output));
    args.push(String::from_str("-c"));
    let c = Command { program: String::from_str("g++"), args };
    proof {
        assert(c@.args =~~= compile_model(input@, output@).args);
        assert(c@ =~~= compile_model(input@, output@));
    }
    c
}

/// Builds the link invocation for the given object paths and final artifact.
pub fn link_command(objects: &Vec<String>, output: &str) -> (c: Command)
    ensures
        c@ == link_model(objects.deep_view(), output@),
{
    proof {
        reveal_strlit("g++");
        reveal_strlit("-o");
        assert("g++"@ =~= compiler_name());
        assert("-o"@ =~= out_flag());
    }
    let ghost ov = objects.deep_view();
    let mut args: Vec<String> = Vec::new();
    let mut j: usize = 0;
    proof {
        assert(args.deep_view() =~~= ov.take(0));
    }
    while j < objects.len()
        invariant
            ov == objects.deep_view(),
            objects@.len() == ov.len(),
            0 <= j <= objects@.len(),
            args.deep_view() == ov.take(j as int),
        decreases objects@.len() - j,
    {
        let ghost before = args.deep_view();
        args.push(objects[j].clone());
        proof {
            assert(objects@[j as int]@ == ov[j as int]);
            assert(args.deep_view() =~~= before.push(ov[j as int]));
            assert(before.push(ov[j as int]) =~~= ov.take(j + 1));
        }
        j += 1;
    }
    proof {
        assert(ov.take(ov.len() as int) =~~= ov);
    }
    let ghost base = args.deep_view();
    args.push(String::from_str("-o"));
    args.push(String::from_str(output));
    let c = Command { program: String::from_str("g++"), args };
    proof {
        assert(c@.args =~~= base + seq![out_flag(), output@]);
        assert(c@ =~~= link_model(ov, output@));
    }
    c
}

} // verus!
