//! The logical requests that the build and execute operations work on.

use vstd::prelude::*;

verus! {

/// A named argument override: the value that the option `name` of the
/// program takes in this run.
#[derive(Clone, Debug, PartialEq, Eq)]
pub struct Argument {
    pub name: String,
    pub value: String,
}

/// The name under which the call surface knows an argument override.
pub type CmdArgSpec = Argument;

/// What to evaluate and how.
#[derive(Clone, Debug, PartialEq, Eq)]
pub struct ExecProgramArgs {
    /// The directory that relative source paths start from.
    pub work_dir: String,
    /// The source files, in the order in which they are evaluated.
    pub k_filename_list: Vec<String>,
    /// The named argument overrides.
    pub args: Vec<Argument>,
    /// Leave the rendered text out of the result.
    pub disable_yaml_result: bool,
    /// Compile without evaluating, and let faults surface as they are.
    pub compile_only: bool,
}

impl Default for ExecProgramArgs {
    /// No directory, no files, no overrides, every flag off.
    fn default() -> (args: Self)
        ensures
            args.work_dir@.len() == 0,
            args.k_filename_list@.len() == 0,
            args.args@.len() == 0,
            !args.disable_yaml_result,
            !args.compile_only,
    {
        ExecProgramArgs {
            work_dir: String::new(),
            k_filename_list: Vec::new(),
            args: Vec::new(),
            disable_yaml_result: false,
            compile_only: false,
        }
    }
}

/// What to build, and where the artifact is to go.
#[derive(Clone, Debug, PartialEq, Eq)]
pub struct BuildProgramArgs {
    pub exec_args: ExecProgramArgs,
    /// The path asked for. The path of the artifact is resolved from it.
    pub output: String,
}

/// Which artifact to run, and with which arguments.
#[derive(Clone, Debug, PartialEq, Eq)]
pub struct ExecArtifactArgs {
    /// The path of the artifact, as its build returned it.
    pub path: String,
    pub exec_args: ExecProgramArgs,
}

/// A built artifact: a compiled unit on disk that can be loaded and run
/// any number of times until its path is removed.
#[derive(Clone, Debug, PartialEq, Eq)]
pub struct Artifact {
    /// The resolved path of the artifact.
    pub path: String,
}

} // verus!
