use vstd::prelude::*;
use crate::job::{FetchStep, JobSpec};
use crate::log::LogLine;

verus! {

/// How the fetch tool's run for one step ended.
#[derive(Clone, Debug, PartialEq, Eq)]
pub enum StepResult {
    /// The process ran and exited with this code; zero is success.
    Exited { code: i64 },
    /// The fetch tool is missing from the path given.
    ToolMissing { path: String },
    /// The process could not be launched.
    SpawnFailed { detail: String },
    /// The process could not be reaped.
    WaitFailed { detail: String },
}

/// How one post-download copy ended.
#[derive(Clone, Debug, PartialEq, Eq)]
pub enum CopyResult {
    Copied,
    /// The source does not exist, so nothing was copied.
    Missing,
    Failed { detail: String },
}

/// What the runner reports to the sequencer.
#[derive(Clone, Debug, PartialEq, Eq)]
pub enum Event {
    /// The target folder is in place; the job may begin.
    Started,
    /// The target folder could not be made.
    FolderFailed { detail: String },
    /// The step that was asked for has ended.
    StepEnded { result: StepResult },
    /// The copy of the post-download folder has ended.
    CrackCopyEnded { copied: CopyResult },
    /// The copy of the localization file has ended.
    LocalizationCopyEnded { copied: CopyResult },
}

/// How a job ended.
#[derive(Clone, Debug, PartialEq, Eq)]
pub enum JobOutcome {
    Completed,
    Cancelled,
    /// The job stopped at the failure that this log line reports.
    Failed { reason: LogLine },
}

/// What the runner does next.
#[derive(Clone, Debug, PartialEq, Eq)]
pub enum Action {
    /// Run fetch step `index` of the job.
    RunStep { index: usize },
    /// Copy the post-download folder into the target folder.
    CopyCrack,
    /// Copy the localization file into the target folder.
    CopyLocalization,
    /// The job is over.
    Finish { outcome: JobOutcome },
}

/// Where a job's run stands.
#[derive(PartialEq, Eq, Structural, Clone, Copy, Debug)]
pub enum Stage {
    Ready,
    Running { index: usize },
    CopyingCrack,
    CopyingLocalization,
    Done,
}

/// What the sequencer does on one event: its next stage, the lines it logs, and the
/// action it asks for (none where the stage does not take the event).
pub type Reaction = (Stage, Seq<LogLine>, Option<Action>);

/// The lines that end a job whose fetches all succeeded.
pub open spec fn closing_lines(job: JobSpec) -> Seq<LogLine> {
    seq![LogLine::Finished { name: job.name }, LogLine::Hint { textures: job.textures }]
}

pub open spec fn downloading_line(step: FetchStep) -> LogLine {
    LogLine::Downloading { depot: step.depot, manifest: step.manifest }
}

/// Decision at the boundary before fetch step `k`: check for cancellation, then run step
/// `k`; past the last step, go on to the copies, or finish.
pub open spec fn at_boundary(job: JobSpec, k: int, cancelled: bool) -> Reaction {
    if k < job.steps@.len() {
        if cancelled {
            (Stage::Done, seq![LogLine::Cancelled], Some(Action::Finish { outcome: JobOutcome::Cancelled }))
        } else {
            (
                Stage::Running { index: k as usize },
                seq![downloading_line(job.steps@[k])],
                Some(Action::RunStep { index: k as usize }),
            )
        }
    } else if job.spec_has_post_step() {
        (Stage::CopyingCrack, seq![LogLine::CopyingExtras], Some(Action::CopyCrack))
    } else {
        (Stage::Done, closing_lines(job), Some(Action::Finish { outcome: JobOutcome::Completed }))
    }
}

pub open spec fn crack_line(r: CopyResult) -> LogLine {
    match r {
        CopyResult::Copied => LogLine::CrackCopied,
        CopyResult::Missing => LogLine::CrackSkipped,
        CopyResult::Failed { detail } => LogLine::CrackFailed { detail },
    }
}

pub open spec fn localization_line(r: CopyResult) -> LogLine {
    match r {
        CopyResult::Copied => LogLine::LocalizationCopied,
        CopyResult::Missing => LogLine::LocalizationSkipped,
        CopyResult::Failed { detail } => LogLine::LocalizationFailed { detail },
    }
}

/// The line that reports how step `index` ended.
pub open spec fn step_line(job: JobSpec, index: int, r: StepResult) -> LogLine {
    match r {
        StepResult::Exited { code } => if code == 0 {
            LogLine::DepotDone { depot: job.steps@[index].depot }
        } else {
            LogLine::DepotFailed { depot: job.steps@[index].depot, code }
        },
        StepResult::ToolMissing { path } => LogLine::ToolMissing { path },
        StepResult::SpawnFailed { detail } => LogLine::SpawnFailed { detail },
        StepResult::WaitFailed { detail } => LogLine::WaitFailed { detail },
    }
}

pub open spec fn step_succeeded(r: StepResult) -> bool {
    r matches StepResult::Exited { code } && code == 0
}

/// The sequencer's whole behaviour: the reaction to `ev` in stage `stage`, with `cancelled`
/// the job's cancellation flag as read when the event came.
pub open spec fn react(job: JobSpec, stage: Stage, ev: Event, cancelled: bool) -> Reaction {
    match (stage, ev) {
        (Stage::Ready, Event::Started) => at_boundary(job, 0, cancelled),
        (Stage::Ready, Event::FolderFailed { detail }) => (
            Stage::Done,
            seq![LogLine::FolderFailed { detail }],
            Some(Action::Finish { outcome: JobOutcome::Failed { reason: LogLine::FolderFailed { detail } } }),
        ),
        (Stage::Running { index }, Event::StepEnded { result }) => {
            let line = step_line(job, index as int, result);
            if step_succeeded(result) {
                let next = at_boundary(job, index + 1, cancelled);
                (next.0, seq![line] + next.1, next.2)
            } else {
                (Stage::Done, seq![line], Some(Action::Finish { outcome: JobOutcome::Failed { reason: line } }))
            }
        },
        (Stage::CopyingCrack, Event::CrackCopyEnded { copied }) =>
            (Stage::CopyingLocalization, seq![crack_line(copied)], Some(Action::CopyLocalization)),
        (Stage::CopyingLocalization, Event::LocalizationCopyEnded { copied }) => (
            Stage::Done,
            seq![localization_line(copied)] + closing_lines(job),
            Some(Action::Finish { outcome: JobOutcome::Completed }),
        ),
        _ => (stage, Seq::empty(), None),
    }
}

/// Feeds `events` in order, each with the cancellation flag read at the time, starting
/// in `stage`: the stage reached, every line logged, and the last action asked for.
pub open spec fn run(job: JobSpec, stage: Stage, events: Seq<(Event, bool)>) -> Reaction
    decreases events.len(),
{
    if events.len() == 0 {
        (stage, Seq::empty(), None)
    } else {
        let before = run(job, stage, events.drop_last());
        let r = react(job, before.0, events.last().0, events.last().1);
        (r.0, before.1 + r.1, r.2)
    }
}

/// The lines that fetch steps `0..k` log when each of them succeeds: for each, in step
/// order, the line that starts it and the line that reports its success.
pub open spec fn fetched_lines(job: JobSpec, k: nat) -> Seq<LogLine>
    decreases k,
{
    if k == 0 {
        Seq::empty()
    } else {
        fetched_lines(job, (k - 1) as nat) + seq![
            downloading_line(job.steps@[k - 1]),
            LogLine::DepotDone { depot: job.steps@[k - 1].depot },
        ]
    }
}

/// The event that reports a successful step, with no cancellation requested.
pub open spec fn step_ok() -> (Event, bool) {
    (Event::StepEnded { result: StepResult::Exited { code: 0 } }, false)
}

/// The start of a job followed by `k` successful steps, with no cancellation requested.
pub open spec fn started_then_ok(k: nat) -> Seq<(Event, bool)> {
    seq![(Event::Started, false)] + Seq::new(k, |i: int| step_ok())
}

proof fn lemma_started_then_ok_last(k: nat)
    requires
        k > 0,
    ensures
        started_then_ok(k).drop_last() == started_then_ok((k - 1) as nat),
        started_then_ok(k).last() == step_ok(),
        started_then_ok(k).len() == k + 1,
{
    assert(started_then_ok(k).drop_last() =~= started_then_ok((k - 1) as nat));
}

proof fn lemma_run_one(job: JobSpec, stage: Stage, e: (Event, bool))
    ensures
        run(job, stage, seq![e]) == react(job, stage, e.0, e.1),
{
    reveal_with_fuel(run, 2);
    assert(seq![e].drop_last() =~= Seq::<(Event, bool)>::empty());
    let r = react(job, stage, e.0, e.1);
    assert(Seq::<LogLine>::empty() + r.1 =~= r.1);
}

proof fn lemma_run_push(job: JobSpec, stage: Stage, events: Seq<(Event, bool)>, e: (Event, bool))
    ensures
        run(job, stage, events.push(e)) == ({
            let before = run(job, stage, events);
            let r = react(job, before.0, e.0, e.1);
            (r.0, before.1 + r.1, r.2)
        }),
{
    assert(events.push(e).drop_last() =~= events);
}

/// While steps remain, a job whose steps so far all succeeded has run them in order and
/// is running the next one.
proof fn lemma_ok_prefix(job: JobSpec, k: nat)
    requires
        k < job.steps@.len(),
    ensures
        run(job, Stage::Ready, started_then_ok(k)) == (
            Stage::Running { index: k as usize },
            fetched_lines(job, k) + seq![downloading_line(job.steps@[k as int])],
            Some(Action::RunStep { index: k as usize }),
        ),
    decreases k,
{
    vstd::std_specs::vec::axiom_spec_len(&job.steps);
    if k == 0 {
        assert(started_then_ok(0) =~= seq![(Event::Started, false)]);
        lemma_run_one(job, Stage::Ready, (Event::Started, false));
        assert(Seq::<LogLine>::empty() + seq![downloading_line(job.steps@[0])]
            =~= seq![downloading_line(job.steps@[0])]);
    } else {
        lemma_ok_prefix(job, (k - 1) as nat);
        lemma_started_then_ok_last(k);
        assert(fetched_lines(job, (k - 1) as nat) + seq![downloading_line(job.steps@[k - 1])]
            + (seq![LogLine::DepotDone { depot: job.steps@[k - 1].depot }]
            + seq![downloading_line(job.steps@[k as int])])
            =~= fetched_lines(job, k) + seq![downloading_line(job.steps@[k as int])]);
    }
}

/// After the start and the success of every step, the fetch phase is over: the log holds
/// each step's start and success in step order, then what the end of the fetches logs.
proof fn lemma_all_ok(job: JobSpec)
    ensures
        ({
            let n = job.steps@.len();
            let end = at_boundary(job, n as int, false);
            run(job, Stage::Ready, started_then_ok(n)) == (end.0, fetched_lines(job, n) + end.1, end.2)
        }),
{
    let n = job.steps@.len();
    let end = at_boundary(job, n as int, false);
    vstd::std_specs::vec::axiom_spec_len(&job.steps);
    if n == 0 {
        assert(started_then_ok(0) =~= seq![(Event::Started, false)]);
        lemma_run_one(job, Stage::Ready, (Event::Started, false));
        assert(Seq::<LogLine>::empty() + end.1 =~= end.1);
    } else {
        lemma_ok_prefix(job, (n - 1) as nat);
        lemma_started_then_ok_last(n);
        assert(fetched_lines(job, (n - 1) as nat) + seq![downloading_line(job.steps@[n - 1])]
            + (seq![LogLine::DepotDone { depot: job.steps@[n - 1].depot }] + end.1)
            =~= fetched_lines(job, n) + end.1);
    }
}

/// A job without post-download copies whose every step exits with code zero completes:
/// its log holds, in step order, each step's start and success, then the closing lines.
pub proof fn lemma_all_steps_succeed(job: JobSpec)
    requires
        !job.spec_has_post_step(),
    ensures
        run(job, Stage::Ready, started_then_ok(job.steps@.len())) == (
            Stage::Done,
            fetched_lines(job, job.steps@.len()) + closing_lines(job),
            Some(Action::Finish { outcome: JobOutcome::Completed }),
        ),
{
    lemma_all_ok(job);
}

/// A job with post-download copies whose every step exits with code zero completes,
/// whatever became of the two copies: a missing or failed copy is logged, never fatal.
pub proof fn lemma_copies_never_fail_job(job: JobSpec, crack: CopyResult, localization: CopyResult)
    requires
        job.spec_has_post_step(),
    ensures
        ({
            let n = job.steps@.len();
            let events = started_then_ok(n)
                .push((Event::CrackCopyEnded { copied: crack }, false))
                .push((Event::LocalizationCopyEnded { copied: localization }, false));
            run(job, Stage::Ready, events) == (
                Stage::Done,
                fetched_lines(job, n)
                    + seq![LogLine::CopyingExtras, crack_line(crack), localization_line(localization)]
                    + closing_lines(job),
                Some(Action::Finish { outcome: JobOutcome::Completed }),
            )
        }),
{
    let n = job.steps@.len();
    let first = started_then_ok(n);
    let second = first.push((Event::CrackCopyEnded { copied: crack }, false));
    lemma_all_ok(job);
    lemma_run_push(job, Stage::Ready, first, (Event::CrackCopyEnded { copied: crack }, false));
    lemma_run_push(job, Stage::Ready, second, (Event::LocalizationCopyEnded { copied: localization }, false));
    assert(fetched_lines(job, n) + seq![LogLine::CopyingExtras] + seq![crack_line(crack)]
        + (seq![localization_line(localization)] + closing_lines(job))
        =~= fetched_lines(job, n)
            + seq![LogLine::CopyingExtras, crack_line(crack), localization_line(localization)]
            + closing_lines(job));
}

/// When step `k` (counting from one) fails, after the steps before it succeeded, the job
/// fails with that step's failure as its reason; the log holds exactly `k` step starts,
/// and the finished job takes no further event, so no later step runs.
pub proof fn lemma_failed_step_stops_job(job: JobSpec, k: nat, result: StepResult, cancelled: bool)
    requires
        1 <= k <= job.steps@.len(),
        !step_succeeded(result),
    ensures
        ({
            let line = step_line(job, k - 1, result);
            run(job, Stage::Ready, started_then_ok((k - 1) as nat).push((Event::StepEnded { result }, cancelled)))
                == (
                    Stage::Done,
                    fetched_lines(job, (k - 1) as nat) + seq![downloading_line(job.steps@[k - 1]), line],
                    Some(Action::Finish { outcome: JobOutcome::Failed { reason: line } }),
                )
        }),
        forall|ev: Event, c: bool| #[trigger] react(job, Stage::Done, ev, c).2 is None,
{
    vstd::std_specs::vec::axiom_spec_len(&job.steps);
    lemma_ok_prefix(job, (k - 1) as nat);
    lemma_run_push(job, Stage::Ready, started_then_ok((k - 1) as nat), (Event::StepEnded { result }, cancelled));
    let line = step_line(job, k - 1, result);
    assert(fetched_lines(job, (k - 1) as nat) + seq![downloading_line(job.steps@[k - 1])] + seq![line]
        =~= fetched_lines(job, (k - 1) as nat) + seq![downloading_line(job.steps@[k - 1]), line]);
}

/// A cancellation requested before the first step starts ends the job as cancelled with
/// no step run.
pub proof fn lemma_cancel_before_start(job: JobSpec)
    requires
        job.steps@.len() > 0,
    ensures
        run(job, Stage::Ready, seq![(Event::Started, true)]) == (
            Stage::Done,
            seq![LogLine::Cancelled],
            Some(Action::Finish { outcome: JobOutcome::Cancelled }),
        ),
{
    lemma_run_one(job, Stage::Ready, (Event::Started, true));
}

/// A cancellation seen after step `k` (counting from one) succeeded ends the job as
/// cancelled before step `k + 1` starts.
pub proof fn lemma_cancel_between_steps(job: JobSpec, k: nat)
    requires
        1 <= k < job.steps@.len(),
    ensures
        run(
            job,
            Stage::Ready,
            started_then_ok((k - 1) as nat).push(
                (Event::StepEnded { result: StepResult::Exited { code: 0 } }, true),
            ),
        ) == (
            Stage::Done,
            fetched_lines(job, k) + seq![LogLine::Cancelled],
            Some(Action::Finish { outcome: JobOutcome::Cancelled }),
        ),
{
    vstd::std_specs::vec::axiom_spec_len(&job.steps);
    lemma_ok_prefix(job, (k - 1) as nat);
    lemma_run_push(
        job,
        Stage::Ready,
        started_then_ok((k - 1) as nat),
        (Event::StepEnded { result: StepResult::Exited { code: 0 } }, true),
    );
    assert(fetched_lines(job, (k - 1) as nat) + seq![downloading_line(job.steps@[k - 1])]
        + (seq![LogLine::DepotDone { depot: job.steps@[k - 1].depot }] + seq![LogLine::Cancelled])
        =~= fetched_lines(job, k) + seq![LogLine::Cancelled]);
}

/// Runs one job's steps: told what happened, it says what to do next and what to log.
pub struct Sequencer {
    job: JobSpec,
    stage: Stage,
}

impl Sequencer {
    pub closed spec fn spec_job(&self) -> JobSpec {
        self.job
    }

    pub closed spec fn spec_stage(&self) -> Stage {
        self.stage
    }

    pub closed spec fn wf(&self) -> bool {
        self.stage matches Stage::Running { index } ==> index < self.job.steps@.len()
    }

    /// Whether the sequencer in its present stage takes `ev`.
    pub open spec fn accepts(&self, ev: Event) -> bool {
        react(self.spec_job(), self.spec_stage(), ev, false).2 is Some
    }

    /// Whether the sequencer in its present stage takes `ev`.
    pub fn takes(&self, ev: &Event) -> (r: bool)
        ensures
            r == self.accepts(*ev),
    {
        match (self.stage, ev) {
            (Stage::Ready, Event::Started) => true,
            (Stage::Ready, Event::FolderFailed { .. }) => true,
            (Stage::Running { .. }, Event::StepEnded { .. }) => true,
            (Stage::CopyingCrack, Event::CrackCopyEnded { .. }) => true,
            (Stage::CopyingLocalization, Event::LocalizationCopyEnded { .. }) => true,
            _ => false,
        }
    }

    /// A sequencer for `job`, before anything has run.
    pub fn new(job: JobSpec) -> (r: Sequencer)
        ensures
            r.wf(),
            r.spec_job() == job,
            r.spec_stage() == Stage::Ready,
    {
        Sequencer { job, stage: Stage::Ready }
    }

    pub fn job(&self) -> (r: &JobSpec)
        ensures
            *r == self.spec_job(),
    {
        &self.job
    }

    pub fn stage(&self) -> (r: Stage)
        ensures
            r == self.spec_stage(),
    {
        self.stage
    }

    fn boundary(&mut self, k: usize, cancelled: bool) -> (r: (Vec<LogLine>, Action))
        requires
            k <= old(self).job.steps@.len(),
        ensures
            final(self).wf(),
            final(self).job == old(self).job,
            (final(self).stage, r.0@, Some(r.1)) == at_boundary(old(self).job, k as int, cancelled),
    {
        let mut lines: Vec<LogLine> = Vec::new();
        if k < self.job.steps.len() {
            if cancelled {
                self.stage = Stage::Done;
                lines.push(LogLine::Cancelled);
                assert(lines@ =~= seq![LogLine::Cancelled]);
                (lines, Action::Finish { outcome: JobOutcome::Cancelled })
            } else {
                let step = &self.job.steps[k];
                lines.push(LogLine::Downloading { depot: step.depot, manifest: step.manifest.clone() });
                assert(lines@ =~= seq![downloading_line(self.job.steps@[k as int])]);
                self.stage = Stage::Running { index: k };
                (lines, Action::RunStep { index: k })
            }
        } else if self.job.has_post_step() {
            self.stage = Stage::CopyingCrack;
            lines.push(LogLine::CopyingExtras);
            assert(lines@ =~= seq![LogLine::CopyingExtras]);
            (lines, Action::CopyCrack)
        } else {
            self.stage = Stage::Done;
            lines.push(LogLine::Finished { name: self.job.name.clone() });
            lines.push(LogLine::Hint { textures: self.job.textures });
            assert(lines@ =~= closing_lines(self.job));
            (lines, Action::Finish { outcome: JobOutcome::Completed })
        }
    }

    /// Takes `ev`, with `cancelled` the job's cancellation flag as read now, and says
    /// which lines to log and what to do next, as `react` gives them.
    pub fn advance(&mut self, ev: Event, cancelled: bool) -> (r: (Vec<LogLine>, Action))
        requires
            old(self).wf(),
            old(self).accepts(ev),
        ensures
            final(self).wf(),
            final(self).spec_job() == old(self).spec_job(),
            (final(self).spec_stage(), r.0@, Some(r.1))
                == react(old(self).spec_job(), old(self).spec_stage(), ev, cancelled),
    {
        match ev {
            Event::Started => self.boundary(0, cancelled),
            Event::FolderFailed { detail } => {
                let mut lines: Vec<LogLine> = Vec::new();
                lines.push(LogLine::FolderFailed { detail: detail.clone() });
                assert(lines@ =~= seq![LogLine::FolderFailed { detail }]);
                self.stage = Stage::Done;
                (lines, Action::Finish { outcome: JobOutcome::Failed { reason: LogLine::FolderFailed { detail } } })
            },
            Event::StepEnded { result } => {
                proof {
                    assert(self.stage is Running);
                }
                let index = match self.stage {
                    Stage::Running { index } => index,
                    _ => 0,
                };
                let n = self.job.steps.len();
                assert(index < n);
                let depot = self.job.steps[index].depot;
                match result {
                    StepResult::Exited { code } => {
                        if code == 0 {
                            let next = self.boundary(index + 1, cancelled);
                            let mut lines: Vec<LogLine> = Vec::new();
                            lines.push(LogLine::DepotDone { depot });
                            let mut rest = next.0;
                            lines.append(&mut rest);
                            (lines, next.1)
                        } else {
                            self.stage = Stage::Done;
                            let mut lines: Vec<LogLine> = Vec::new();
                            lines.push(LogLine::DepotFailed { depot, code });
                            assert(lines@ =~= seq![step_line(self.job, index as int, result)]);
                            (lines, Action::Finish { outcome: JobOutcome::Failed { reason: LogLine::DepotFailed { depot, code } } })
                        }
                    },
                    StepResult::ToolMissing { path } => {
                        self.stage = Stage::Done;
                        let mut lines: Vec<LogLine> = Vec::new();
                        lines.push(LogLine::ToolMissing { path: path.clone() });
                        assert(lines@ =~= seq![LogLine::ToolMissing { path }]);
                        (lines, Action::Finish { outcome: JobOutcome::Failed { reason: LogLine::ToolMissing { path } } })
                    },
                    StepResult::SpawnFailed { detail } => {
                        self.stage = Stage::Done;
                        let mut lines: Vec<LogLine> = Vec::new();
                        lines.push(LogLine::SpawnFailed { detail: detail.clone() });
                        assert(lines@ =~= seq![LogLine::SpawnFailed { detail }]);
                        (lines, Action::Finish { outcome: JobOutcome::Failed { reason: LogLine::SpawnFailed { detail } } })
                    },
                    StepResult::WaitFailed { detail } => {
                        self.stage = Stage::Done;
                        let mut lines: Vec<LogLine> = Vec::new();
                        lines.push(LogLine::WaitFailed { detail: detail.clone() });
                        assert(lines@ =~= seq![LogLine::WaitFailed { detail }]);
                        (lines, Action::Finish { outcome: JobOutcome::Failed { reason: LogLine::WaitFailed { detail } } })
                    },
                }
            },
            Event::CrackCopyEnded { copied } => {
                let line = match copied {
                    CopyResult::Copied => LogLine::CrackCopied,
                    CopyResult::Missing => LogLine::CrackSkipped,
                    CopyResult::Failed { detail } => LogLine::CrackFailed { detail },
                };
                let mut lines: Vec<LogLine> = Vec::new();
                lines.push(line);
                self.stage = Stage::CopyingLocalization;
                (lines, Action::CopyLocalization)
            },
            Event::LocalizationCopyEnded { copied } => {
                let line = match copied {
                    CopyResult::Copied => LogLine::LocalizationCopied,
                    CopyResult::Missing => LogLine::LocalizationSkipped,
                    CopyResult::Failed { detail } => LogLine::LocalizationFailed { detail },
                };
                let mut lines: Vec<LogLine> = Vec::new();
                lines.push(line);
                lines.push(LogLine::Finished { name: self.job.name.clone() });
                lines.push(LogLine::Hint { textures: self.job.textures });
                assert(lines@ =~= seq![localization_line(copied)] + closing_lines(self.job));
                self.stage = Stage::Done;
                (lines, Action::Finish { outcome: JobOutcome::Completed })
            },
        }
    }
}

} // verus!
