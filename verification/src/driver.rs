//! The run as a whole: how it starts and how it ends.
//!
//! The output directory is created once, before the walk. Where that
//! fails, for one because the directory is there already, the run is
//! over before it began.

use crate::naming::OUTPUT_DIRECTORY;
use crate::outcome::{diagnostic, Failure, FailureKind, FailureView};
use crate::scheduler::RunState;
use vstd::prelude::*;

verus! {

/// The exit status of a run without a failure.
pub const EXIT_SUCCESS: u8 = 0;

/// The exit status of a run that failed.
pub const EXIT_FAILURE: u8 = 1;

/// The path of the output directory below `root`.
pub open spec fn output_directory_of(root: Seq<char>) -> Seq<char> {
    root + seq!['/'] + OUTPUT_DIRECTORY@
}

/// The path of the output directory below `root`.
pub fn output_directory(root: &str) -> (r: String)
    ensures
        r@ == output_directory_of(root@),
{
    let mut path = String::from_str(root);
    proof {
        reveal_strlit("/");
    }
    path.append("/");
    assert("/"@ =~= seq!['/']);
    path.append(OUTPUT_DIRECTORY);
    path
}

/// The state in which a run starts, given how creating the output
/// directory at `path` went: halted by a setup failure where it failed.
pub fn start(path: &str, created: Result<(), String>) -> (r: RunState)
    ensures
        match created {
            Ok(_) => r is Running,
            Err(text) => r matches RunState::Halted(f) && f@ == (FailureView {
                kind: FailureKind::Setup,
                message: text@,
                path: Some(path@),
            }),
        },
{
    match created {
        Ok(_) => RunState::Running,
        Err(text) => RunState::Halted(Failure::at(FailureKind::Setup, text, path)),
    }
}

/// The exit status of a run that ends in `state`.
pub fn exit_code(state: &RunState) -> (r: u8)
    ensures
        r == if *state is Running {
            EXIT_SUCCESS
        } else {
            EXIT_FAILURE
        },
{
    match state {
        RunState::Running => EXIT_SUCCESS,
        RunState::Halted(_) => EXIT_FAILURE,
    }
}

/// The line to print for a run that ends in `state`: none for a run
/// without a failure.
pub fn report(state: &RunState) -> (r: Option<String>)
    ensures
        match *state {
            RunState::Running => r is None,
            RunState::Halted(f) => r matches Some(line) && line@ == diagnostic(f@),
        },
{
    match state {
        RunState::Running => None,
        RunState::Halted(f) => Some(f.describe()),
    }
}

} // verus!
