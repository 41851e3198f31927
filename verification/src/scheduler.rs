//! A run over a directory tree: what is done with each entry, and how the
//! first failure halts the run.
//!
//! The walk itself, and the workers that convert in parallel, belong to
//! the caller. It asks `visit` before it starts work on an entry and
//! hands every outcome to `observe`.

use crate::filter::{accepted, accepts, FileEntry};
use crate::naming::{lemma_source_name_target, target_suffix};
use crate::outcome::{ConversionOutcome, Failure, FailureKind, FailureView};
use crate::task::{stepped, ConversionTask, TaskAction, TaskEvent};
use vstd::prelude::*;

verus! {

/// Whether a run goes on.
#[derive(Debug, PartialEq, Eq)]
pub enum RunState {
    /// No failure was observed.
    Running,
    /// The run is halted; this is the first failure observed.
    Halted(Failure),
}

/// What the walk is told after an outcome.
#[derive(Clone, Copy, Debug, PartialEq, Eq, Structural)]
pub enum WalkSignal {
    Continue,
    Quit,
}

/// What is done with one entry of the walk.
#[derive(Debug, PartialEq, Eq)]
pub enum Visit {
    /// The run is halted: no new work is started.
    Quit,
    /// The entry is not converted.
    Skip,
    /// The walk could not read the entry: this outcome is to be observed.
    Report(ConversionOutcome),
    /// A new task takes the entry; the action is what it asks for first.
    Convert(ConversionTask, TaskAction),
}

/// The state of a run after one more outcome: the first failure halts
/// it, and a halted run keeps the failure it has.
pub open spec fn observed(state: RunState, outcome: ConversionOutcome) -> RunState {
    match state {
        RunState::Halted(_) => state,
        RunState::Running => match outcome {
            ConversionOutcome::Success => RunState::Running,
            ConversionOutcome::Failure(f) => RunState::Halted(f),
        },
    }
}

/// The state of a run after a sequence of outcomes, in the order in which
/// they were observed.
pub open spec fn observed_all(state: RunState, outcomes: Seq<ConversionOutcome>) -> RunState
    decreases outcomes.len(),
{
    if outcomes.len() == 0 {
        state
    } else {
        observed(observed_all(state, outcomes.drop_last()), outcomes.last())
    }
}

/// The signal that goes with a state.
pub open spec fn signal(state: RunState) -> WalkSignal {
    match state {
        RunState::Running => WalkSignal::Continue,
        RunState::Halted(_) => WalkSignal::Quit,
    }
}

/// Fail-fast: after any sequence of outcomes a run is halted exactly if
/// one of them was a failure, and the failure it holds is the first one
/// of the sequence.
pub proof fn lemma_first_failure_wins(outcomes: Seq<ConversionOutcome>)
    ensures
        match observed_all(RunState::Running, outcomes) {
            RunState::Running => forall|i: int|
                0 <= i < outcomes.len() ==> outcomes[i] is Success,
            RunState::Halted(f) => exists|i: int|
                {
                    &&& 0 <= i < outcomes.len()
                    &&& outcomes[i] == ConversionOutcome::Failure(f)
                    &&& forall|j: int| 0 <= j < i ==> outcomes[j] is Success
                },
        },
    decreases outcomes.len(),
{
    if outcomes.len() > 0 {
        let front = outcomes.drop_last();
        lemma_first_failure_wins(front);
        match observed_all(RunState::Running, front) {
            RunState::Running => {
                assert forall|j: int| 0 <= j < outcomes.len() - 1 implies outcomes[j] is Success by {
                    assert(front[j] == outcomes[j]);
                }
                if let ConversionOutcome::Failure(f) = outcomes.last() {
                    let i = outcomes.len() - 1;
                    assert(outcomes[i] == ConversionOutcome::Failure(f));
                }
            },
            RunState::Halted(f) => {
                let i = choose|i: int|
                    {
                        &&& 0 <= i < front.len()
                        &&& front[i] == ConversionOutcome::Failure(f)
                        &&& forall|j: int| 0 <= j < i ==> front[j] is Success
                    };
                assert(outcomes[i] == front[i]);
                assert forall|j: int| 0 <= j < i implies outcomes[j] is Success by {
                    assert(front[j] == outcomes[j]);
                }
            },
        }
    }
}

/// A halted run stays halted on the same failure, whatever comes after.
pub proof fn lemma_halted_stays(failure: Failure, outcomes: Seq<ConversionOutcome>)
    ensures
        observed_all(RunState::Halted(failure), outcomes) == RunState::Halted(failure),
    decreases outcomes.len(),
{
    if outcomes.len() > 0 {
        lemma_halted_stays(failure, outcomes.drop_last());
    }
}

impl RunState {
    /// Whether the run is halted.
    pub fn is_halted(&self) -> (r: bool)
        ensures
            r == (*self is Halted),
    {
        match self {
            RunState::Running => false,
            RunState::Halted(_) => true,
        }
    }

    /// Takes one outcome into account: the state afterwards, and whether
    /// the walk goes on.
    pub fn observe(self, outcome: ConversionOutcome) -> (r: (RunState, WalkSignal))
        ensures
            r.0 == observed(self, outcome),
            r.1 == signal(r.0),
    {
        match self {
            RunState::Halted(f) => (RunState::Halted(f), WalkSignal::Quit),
            RunState::Running => match outcome {
                ConversionOutcome::Success => (RunState::Running, WalkSignal::Continue),
                ConversionOutcome::Failure(f) => (RunState::Halted(f), WalkSignal::Quit),
            },
        }
    }
}

/// What `visit` answers.
///
/// A halted run starts nothing. An entry that the walk could not read is
/// a traversal failure, without a path. An entry that is accepted gets a
/// task that reads it and writes below `out_dir`; any other is skipped.
pub open spec fn visited(
    state: RunState,
    entry: Result<FileEntry, String>,
    out_dir: Seq<char>,
    visit: Visit,
) -> bool {
    match state {
        RunState::Halted(_) => visit is Quit,
        RunState::Running => match entry {
            Err(text) => {
                &&& visit matches Visit::Report(ConversionOutcome::Failure(f))
                &&& f@ == (FailureView {
                    kind: FailureKind::Traversal,
                    message: text@,
                    path: None,
                })
            },
            Ok(e) => if accepted(e) {
                &&& visit matches Visit::Convert(task, action)
                &&& task.stage is Reading
                &&& task.source@ == e.path@
                &&& task.name@ == e.name@
                &&& task.out_dir@ == out_dir
                &&& action matches TaskAction::Read(path)
                &&& path@ == e.path@
            } else {
                visit is Skip
            },
        },
    }
}

/// The one file that a run makes for an entry. Where an entry gets a
/// task, it is an accepted one; and the file which that task asks to be
/// created, once the input is decoded, lies in the output directory and
/// is named as the entry is, with the suffix changed. (A name that is
/// nothing but the suffix keeps it and gets the new one behind.)
pub proof fn lemma_output_of_entry(
    entry: FileEntry,
    out_dir: Seq<char>,
    task: ConversionTask,
    first: TaskAction,
    bytes: Vec<u8>,
    after: ConversionTask,
    path: String,
)
    requires
        visited(RunState::Running, Ok(entry), out_dir, Visit::Convert(task, first)),
        stepped(task, TaskEvent::Read(bytes), after, TaskAction::Create(path)),
        entry.name@.len() > 4,
    ensures
        accepted(entry),
        path@ == out_dir + seq!['/'] + entry.name@.take(entry.name@.len() - 4) + target_suffix(),
{
    lemma_source_name_target(entry.name@);
}

/// Decides what is done with one entry of the walk, or with the error
/// that the walk met in its place.
pub fn visit(state: &RunState, entry: Result<FileEntry, String>, out_dir: &str) -> (r: Visit)
    ensures
        visited(*state, entry, out_dir@, r),
{
    if state.is_halted() {
        return Visit::Quit;
    }
    match entry {
        Err(text) => Visit::Report(
            ConversionOutcome::Failure(
                Failure { kind: FailureKind::Traversal, message: text, path: None },
            ),
        ),
        Ok(e) => {
            if accepts(&e) {
                let (task, action) = ConversionTask::begin(e.path.as_str(), e.name.as_str(), out_dir);
                Visit::Convert(task, action)
            } else {
                Visit::Skip
            }
        },
    }
}

} // verus!
