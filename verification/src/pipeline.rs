//! The order of a run: which work is done at which stage, and what follows
//! from the way that work ended.

use vstd::prelude::*;

verus! {

/// How far a run has come.
#[derive(Clone, Copy, Debug, PartialEq, Eq, Structural)]
pub enum Stage {
    /// Nothing has been done yet.
    Init,
    /// The metric source is ready and samples are being taken.
    Sampling,
    /// The samples are collected and the chart is described.
    Charted,
    /// The vector document is on disk.
    VectorWritten,
    /// The vector document has been rasterised and the bitmap, if there is
    /// one, persisted.
    Rasterized,
    /// The viewer has been started.
    Opened,
}

/// The work that is done at a stage in order to reach the next one.
#[derive(Clone, Copy, Debug, PartialEq, Eq, Structural)]
pub enum Task {
    /// Initialise the metric source, greet, report the used memory.
    Prepare,
    /// Collect the samples and describe the chart.
    Sample,
    /// Render the chart and write the vector document.
    WriteVector,
    /// Read the vector document back, rasterise it, persist the bitmap.
    Rasterize,
    /// Start the viewer on the bitmap.
    OpenViewer,
}

/// What can go wrong during a run.
#[derive(Clone, Copy, Debug, PartialEq, Eq, Structural)]
pub enum Failure {
    /// The chart could not be laid out, serialised or written.
    Render,
    /// The vector document that was just written could not be read back.
    ReadBack,
    /// The bitmap could not be persisted.
    Persist,
    /// The viewer process could not be started.
    Spawn,
}

/// How a failure is treated.
#[derive(Clone, Copy, Debug, PartialEq, Eq, Structural)]
pub enum Severity {
    /// The failure is reported on standard error, the run ends early and the
    /// process still exits normally.
    Reported,
    /// The process is terminated at once with a diagnostic.
    Fatal,
}

/// How a task ended.
#[derive(Clone, Copy, Debug, PartialEq, Eq, Structural)]
pub enum Outcome {
    Completed,
    Failed(Failure),
}

/// What a run does after a task has ended.
#[derive(Clone, Copy, Debug, PartialEq, Eq, Structural)]
pub enum Step {
    /// Go on at the given stage.
    Advance(Stage),
    /// End the run; the process exits normally.
    Halt,
    /// Terminate the process with a diagnostic.
    Abort,
}

/// The stage that follows `stage`, if any.
pub open spec fn spec_successor(stage: Stage) -> Option<Stage> {
    match stage {
        Stage::Init => Some(Stage::Sampling),
        Stage::Sampling => Some(Stage::Charted),
        Stage::Charted => Some(Stage::VectorWritten),
        Stage::VectorWritten => Some(Stage::Rasterized),
        Stage::Rasterized => Some(Stage::Opened),
        Stage::Opened => None,
    }
}

/// The work that is done at `stage`; none once the viewer has been opened.
pub open spec fn spec_task(stage: Stage) -> Option<Task> {
    match stage {
        Stage::Init => Some(Task::Prepare),
        Stage::Sampling => Some(Task::Sample),
        Stage::Charted => Some(Task::WriteVector),
        Stage::VectorWritten => Some(Task::Rasterize),
        Stage::Rasterized => Some(Task::OpenViewer),
        Stage::Opened => None,
    }
}

/// Only a failure to render the chart is reported; every other one is fatal.
pub open spec fn spec_severity(failure: Failure) -> Severity {
    match failure {
        Failure::Render => Severity::Reported,
        Failure::ReadBack => Severity::Fatal,
        Failure::Persist => Severity::Fatal,
        Failure::Spawn => Severity::Fatal,
    }
}

/// What follows when the task of `stage` has ended with `outcome`.
pub open spec fn spec_advance(stage: Stage, outcome: Outcome) -> Step {
    match spec_successor(stage) {
        None => Step::Halt,
        Some(next) => match outcome {
            Outcome::Completed => Step::Advance(next),
            Outcome::Failed(failure) => match spec_severity(failure) {
                Severity::Reported => Step::Halt,
                Severity::Fatal => Step::Abort,
            },
        },
    }
}

/// The position of a task in a run, counted from 0.
pub open spec fn spec_ordinal(task: Task) -> nat {
    match task {
        Task::Prepare => 0,
        Task::Sample => 1,
        Task::WriteVector => 2,
        Task::Rasterize => 3,
        Task::OpenViewer => 4,
    }
}

impl Stage {
    /// The stage that follows this one, if any.
    pub fn successor(self) -> (next: Option<Stage>)
        ensures
            next == spec_successor(self),
    {
        match self {
            Stage::Init => Some(Stage::Sampling),
            Stage::Sampling => Some(Stage::Charted),
            Stage::Charted => Some(Stage::VectorWritten),
            Stage::VectorWritten => Some(Stage::Rasterized),
            Stage::Rasterized => Some(Stage::Opened),
            Stage::Opened => None,
        }
    }

    /// The work to do at this stage; `None` when the run is complete.
    pub fn task(self) -> (task: Option<Task>)
        ensures
            task == spec_task(self),
    {
        match self {
            Stage::Init => Some(Task::Prepare),
            Stage::Sampling => Some(Task::Sample),
            Stage::Charted => Some(Task::WriteVector),
            Stage::VectorWritten => Some(Task::Rasterize),
            Stage::Rasterized => Some(Task::OpenViewer),
            Stage::Opened => None,
        }
    }
}

impl Failure {
    /// How this failure is treated.
    pub fn severity(self) -> (severity: Severity)
        ensures
            severity == spec_severity(self),
    {
        match self {
            Failure::Render => Severity::Reported,
            Failure::ReadBack | Failure::Persist | Failure::Spawn => Severity::Fatal,
        }
    }
}

/// Decides what a run does after the task of `stage` has ended with `outcome`.
///
/// A completed task leads to the next stage. A failure never leads anywhere:
/// the run halts where the failure is only reported, and aborts where it is
/// fatal. Nothing is ever tried again.
pub fn advance(stage: Stage, outcome: Outcome) -> (step: Step)
    ensures
        step == spec_advance(stage, outcome),
{
    match stage.successor() {
        None => Step::Halt,
        Some(next) => match outcome {
            Outcome::Completed => Step::Advance(next),
            Outcome::Failed(failure) => match failure.severity() {
                Severity::Reported => Step::Halt,
                Severity::Fatal => Step::Abort,
            },
        },
    }
}

/// The tasks that a run performs from `stage` on, in order, when the i-th of
/// them ends with `outcomes[i]`. Outcomes past the end of the run are not
/// looked at; a run whose outcomes are used up stops before its next task.
pub open spec fn trace(stage: Stage, outcomes: Seq<Outcome>) -> Seq<Task>
    decreases outcomes.len(),
{
    if outcomes.len() == 0 {
        Seq::<Task>::empty()
    } else {
        match spec_task(stage) {
            None => Seq::<Task>::empty(),
            Some(task) => match spec_advance(stage, outcomes[0]) {
                Step::Advance(next) => seq![task] + trace(next, outcomes.drop_first()),
                _ => seq![task],
            },
        }
    }
}

/// The stage at which the run of [`trace`] stands when it stops.
pub open spec fn last_stage(stage: Stage, outcomes: Seq<Outcome>) -> Stage
    decreases outcomes.len(),
{
    if outcomes.len() == 0 {
        stage
    } else {
        match spec_advance(stage, outcomes[0]) {
            Step::Advance(next) => last_stage(next, outcomes.drop_first()),
            _ => stage,
        }
    }
}

/// The number of tasks between `stage` and the end of a complete run.
pub open spec fn remaining(stage: Stage) -> nat {
    match stage {
        Stage::Init => 5,
        Stage::Sampling => 4,
        Stage::Charted => 3,
        Stage::VectorWritten => 2,
        Stage::Rasterized => 1,
        Stage::Opened => 0,
    }
}

/// A run in which every task completes performs the five tasks in their
/// order, once each, and ends with the viewer opened.
pub proof fn lemma_complete_run(outcomes: Seq<Outcome>)
    requires
        outcomes.len() >= 5,
        forall|i: int| 0 <= i < 5 ==> outcomes[i] == Outcome::Completed,
    ensures
        trace(Stage::Init, outcomes) == seq![
            Task::Prepare,
            Task::Sample,
            Task::WriteVector,
            Task::Rasterize,
            Task::OpenViewer,
        ],
        last_stage(Stage::Init, outcomes) == Stage::Opened,
{
    let o1 = outcomes.drop_first();
    let o2 = o1.drop_first();
    let o3 = o2.drop_first();
    let o4 = o3.drop_first();
    let o5 = o4.drop_first();
    assert(o1[0] == outcomes[1]);
    assert(o2[0] == outcomes[2]);
    assert(o3[0] == outcomes[3]);
    assert(o4[0] == outcomes[4]);
    assert(trace(Stage::Opened, o5) =~= Seq::<Task>::empty());
    assert(trace(Stage::Rasterized, o4) =~= seq![Task::OpenViewer]);
    assert(trace(Stage::VectorWritten, o3) =~= seq![Task::Rasterize, Task::OpenViewer]);
    assert(trace(Stage::Charted, o2) =~= seq![
        Task::WriteVector,
        Task::Rasterize,
        Task::OpenViewer,
    ]);
    assert(trace(Stage::Sampling, o1) =~= seq![
        Task::Sample,
        Task::WriteVector,
        Task::Rasterize,
        Task::OpenViewer,
    ]);
    assert(trace(Stage::Init, outcomes) =~= seq![
        Task::Prepare,
        Task::Sample,
        Task::WriteVector,
        Task::Rasterize,
        Task::OpenViewer,
    ]);
    assert(last_stage(Stage::Opened, o5) == Stage::Opened);
    assert(last_stage(Stage::Rasterized, o4) == Stage::Opened);
    assert(last_stage(Stage::VectorWritten, o3) == Stage::Opened);
    assert(last_stage(Stage::Charted, o2) == Stage::Opened);
    assert(last_stage(Stage::Sampling, o1) == Stage::Opened);
}

/// In every run the tasks come in their fixed order: the i-th task performed
/// from `stage` on is the one that stands i places after the task of `stage`.
/// So no task is performed twice, and none after the viewer has been opened.
pub proof fn lemma_tasks_in_order(stage: Stage, outcomes: Seq<Outcome>)
    ensures
        trace(stage, outcomes).len() <= remaining(stage),
        trace(stage, outcomes).len() <= outcomes.len(),
        forall|i: int|
            0 <= i < trace(stage, outcomes).len() ==> spec_ordinal(
                #[trigger] trace(stage, outcomes)[i],
            ) == 5 - remaining(stage) + i,
    decreases outcomes.len(),
{
    if outcomes.len() > 0 {
        match spec_task(stage) {
            None => {},
            Some(task) => match spec_advance(stage, outcomes[0]) {
                Step::Advance(next) => {
                    lemma_tasks_in_order(next, outcomes.drop_first());
                    let rest = trace(next, outcomes.drop_first());
                    assert forall|i: int| 0 <= i < trace(stage, outcomes).len() implies spec_ordinal(
                        #[trigger] trace(stage, outcomes)[i],
                    ) == 5 - remaining(stage) + i by {
                        if i > 0 {
                            assert(trace(stage, outcomes)[i] == rest[i - 1]);
                        }
                    }
                },
                _ => {},
            },
        }
    }
}

/// A task that did not complete is the last one of its run: whatever the
/// later outcomes say, nothing is performed after it, and nothing is tried
/// again.
pub proof fn lemma_failure_ends_run(stage: Stage, outcomes: Seq<Outcome>, k: int)
    requires
        0 <= k < outcomes.len(),
        outcomes[k] != Outcome::Completed,
    ensures
        trace(stage, outcomes).len() <= k + 1,
    decreases outcomes.len(),
{
    if k > 0 {
        match spec_advance(stage, outcomes[0]) {
            Step::Advance(next) => {
                assert(outcomes.drop_first()[k - 1] == outcomes[k]);
                lemma_failure_ends_run(next, outcomes.drop_first(), k - 1);
            },
            _ => {},
        }
    }
}

/// When the chart cannot be rendered, the run halts without aborting, and
/// neither the rasteriser nor the viewer is ever reached: the run from the
/// start consists of the preparation, the sampling and the failed rendering.
pub proof fn lemma_render_failure_halts(outcomes: Seq<Outcome>)
    requires
        outcomes.len() >= 3,
        outcomes[0] == Outcome::Completed,
        outcomes[1] == Outcome::Completed,
        outcomes[2] == Outcome::Failed(Failure::Render),
    ensures
        spec_advance(Stage::Charted, outcomes[2]) == Step::Halt,
        trace(Stage::Init, outcomes) == seq![Task::Prepare, Task::Sample, Task::WriteVector],
        !trace(Stage::Init, outcomes).contains(Task::Rasterize),
        !trace(Stage::Init, outcomes).contains(Task::OpenViewer),
        last_stage(Stage::Init, outcomes) == Stage::Charted,
{
    let o1 = outcomes.drop_first();
    let o2 = o1.drop_first();
    assert(o1[0] == outcomes[1]);
    assert(o2[0] == outcomes[2]);
    assert(trace(Stage::Charted, o2) =~= seq![Task::WriteVector]);
    assert(trace(Stage::Sampling, o1) =~= seq![Task::Sample, Task::WriteVector]);
    let t = trace(Stage::Init, outcomes);
    assert(t =~= seq![Task::Prepare, Task::Sample, Task::WriteVector]);
    assert(last_stage(Stage::Charted, o2) == Stage::Charted);
    assert(last_stage(Stage::Sampling, o1) == Stage::Charted);
}

} // verus!
