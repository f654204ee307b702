//! Construction of the child's launch command.
//!
//! The supervisor decides what to run; the caller spawns it. A
//! [`LaunchPlan`] fixes the program, its arguments, and the value of the
//! child's `PORT` environment variable — the only channel through which
//! the chosen port reaches the child; it is never passed as an argument.

use vstd::prelude::*;
use vstd::string::StringExecFns;

use crate::numfmt::{dec_str, u64_to_string};

verus! {

/// What to spawn, as plain values; the caller turns it into a process.
pub struct LaunchPlan {
    /// The program to execute: the deployed entry artifact in production
    /// mode, the package runtime in development mode.
    pub program: String,
    /// The program's arguments.
    pub args: Vec<String>,
    /// The value of the child's `PORT` environment variable.
    pub port_env_value: String,
}

/// Builds the launch plan for the given mode and port. The caller names
/// the program to execute: in production the deployed entry artifact, in
/// development the package runtime discovered on the execution path.
///
/// In production mode the deployed entry artifact is run directly, with
/// no arguments; in development mode the runtime runs the service's `dev`
/// task. Either way the port travels only through the `PORT` environment
/// variable.
pub fn make_launch_plan(is_production: bool, port: u16, program: String) -> (r: LaunchPlan)
    ensures
        r.program == program,
        is_production ==> r.args@.len() == 0,
        !is_production ==> r.args@.len() == 2 && r.args@[0]@ == "run"@ && r.args@[1]@ == "dev"@,
        r.port_env_value@ == dec_str(port as nat),
{
    let mut args: Vec<String> = Vec::new();
    if !is_production {
        args.push(String::from_str("run"));
        args.push(String::from_str("dev"));
    }
    let port_env_value = u64_to_string(port as u64);
    LaunchPlan { program, args, port_env_value }
}

/// The development working directory, as path components: when the
/// current directory ends in the build-tooling directory `src-tauri`, that
/// component is stepped out of; the sibling service-source directory
/// `mastrax` is then entered.
pub open spec fn dev_source_components(cwd: Seq<Seq<char>>) -> Seq<Seq<char>> {
    let base = if cwd.len() > 0 && cwd.last() == "src-tauri"@ {
        cwd.drop_last()
    } else {
        cwd
    };
    base.push("mastrax"@)
}

/// Resolves the development working directory from the current directory's
/// path components, per [`dev_source_components`].
pub fn resolve_dev_source_components(cwd: &Vec<String>) -> (r: Vec<String>)
    ensures
        r.deep_view() == dev_source_components(cwd.deep_view()),
{
    let n = cwd.len();
    let tooling = String::from_str("src-tauri");
    let keep: usize = if n > 0 && cwd[n - 1] == tooling {
        n - 1
    } else {
        n
    };
    let mut r: Vec<String> = Vec::new();
    let mut i: usize = 0;
    while i < keep
        invariant
            i <= keep <= cwd@.len(),
            r@.len() == i,
            forall|j: int| 0 <= j < i ==> r@[j] == cwd@[j],
        decreases keep - i,
    {
        r.push(cwd[i].clone());
        i = i + 1;
    }
    r.push(String::from_str("mastrax"));
    proof {
        assert(r.deep_view() =~= dev_source_components(cwd.deep_view()));
    }
    r
}

} // verus!
