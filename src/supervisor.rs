use vstd::prelude::*;
use crate::job::{start_line, JobSpec};
use crate::log::LogLine;
use crate::output::{newest, OutputChannel};
use crate::sequencer::JobOutcome;
use crate::status::{settles_on, DownloadStatus};
use crate::text::{blank, is_blank};

verus! {

/// Why a job was not started.
#[derive(PartialEq, Eq, Structural, Clone, Copy, Debug)]
pub enum StartError {
    /// A job is still running, or its end has not been acknowledged.
    Busy,
    /// The account name is empty or blank.
    ValidationError,
}

/// Owns the one job that may be in flight: its status, its output and its cancellation
/// flag. Each job gets an id; reports that carry the id of a job that is no longer the
/// current one are ignored.
pub struct JobSupervisor {
    status: DownloadStatus,
    output: OutputChannel,
    cancel: bool,
    current: Option<u64>,
    next_id: u64,
}

impl JobSupervisor {
    pub closed spec fn spec_status(&self) -> DownloadStatus {
        self.status
    }

    pub closed spec fn spec_output(&self) -> Seq<LogLine> {
        self.output@
    }

    pub closed spec fn spec_cap(&self) -> nat {
        self.output.spec_cap()
    }

    /// Whether the current job's cancellation has been requested.
    pub closed spec fn spec_cancel(&self) -> bool {
        self.cancel
    }

    /// The id of the job whose status, output and cancellation flag the supervisor holds,
    /// if there is one.
    pub closed spec fn spec_current(&self) -> Option<u64> {
        self.current
    }

    pub closed spec fn wf(&self) -> bool {
        &&& self.output.wf()
        &&& (self.current is None <==> self.status is NotStarted)
    }

    /// A supervisor with no job, whose jobs' output keeps at most `cap` lines.
    pub fn new(cap: usize) -> (r: JobSupervisor)
        ensures
            r.wf(),
            r.spec_status() is NotStarted,
            r.spec_output() == Seq::<LogLine>::empty(),
            r.spec_cap() == cap,
            r.spec_current() is None,
            !r.spec_cancel(),
            r.spec_next_id() == 0,
    {
        JobSupervisor {
            status: DownloadStatus::NotStarted,
            output: OutputChannel::new(cap),
            cancel: false,
            current: None,
            next_id: 0,
        }
    }

    /// The id that the next job to start will get.
    pub closed spec fn spec_next_id(&self) -> u64 {
        self.next_id
    }

    /// Starts `job`: refused for a blank account name, and while another job is held;
    /// otherwise the job gets the next id, an output holding its start line, a clear
    /// cancellation flag, and the status `InProgress`. A refusal changes nothing. Ids are
    /// handed out in increasing order, so no two jobs share one until the count wraps
    /// past the largest `u64`.
    pub fn start(&mut self, job: &JobSpec) -> (r: Result<u64, StartError>)
        requires
            old(self).wf(),
        ensures
            final(self).wf(),
            final(self).spec_cap() == old(self).spec_cap(),
            blank(job.username@) ==> r == Err::<u64, StartError>(StartError::ValidationError),
            !blank(job.username@) && !(old(self).spec_status() is NotStarted)
                ==> r == Err::<u64, StartError>(StartError::Busy),
            !blank(job.username@) && old(self).spec_status() is NotStarted ==> r is Ok,
            r is Err ==> *final(self) == *old(self),
            r matches Ok(id) ==> {
                &&& id == old(self).spec_next_id()
                &&& final(self).spec_next_id() == (if id == u64::MAX { 0 } else { (id + 1) as u64 })
                &&& final(self).spec_status() is InProgress
                &&& final(self).spec_current() == Some(id)
                &&& old(self).spec_current() is None
                &&& !final(self).spec_cancel()
                &&& final(self).spec_output() == newest(seq![start_line(*job)], old(self).spec_cap())
            },
    {
        if is_blank(job.username.as_str()) {
            return Err(StartError::ValidationError);
        }
        match self.status {
            DownloadStatus::NotStarted => {},
            _ => {
                return Err(StartError::Busy);
            },
        }
        let id = self.next_id;
        self.next_id = if self.next_id == u64::MAX { 0 } else { self.next_id + 1 };
        self.current = Some(id);
        self.cancel = false;
        self.status = DownloadStatus::InProgress;
        self.output.clear();
        let line = job.start_line();
        self.output.push(line);
        assert(Seq::<LogLine>::empty().push(start_line(*job)) =~= seq![start_line(*job)]);
        Ok(id)
    }

    /// Asks the current job to stop before its next step; does nothing without a job.
    /// The status is left to the job itself.
    pub fn request_cancel(&mut self)
        requires
            old(self).wf(),
        ensures
            final(self).wf(),
            final(self).spec_next_id() == old(self).spec_next_id(),
            final(self).spec_status() == old(self).spec_status(),
            final(self).spec_output() == old(self).spec_output(),
            final(self).spec_cap() == old(self).spec_cap(),
            final(self).spec_current() == old(self).spec_current(),
            final(self).spec_cancel() == (old(self).spec_cancel() || old(self).spec_current() is Some),
    {
        if self.current.is_some() {
            self.cancel = true;
        }
    }

    /// Whether job `id` should stop: its cancellation was requested, or it is no longer
    /// the current job.
    pub fn should_stop(&self, id: u64) -> (r: bool)
        ensures
            r == (self.spec_current() != Some(id) || self.spec_cancel()),
    {
        match self.current {
            Some(c) => c != id || self.cancel,
            None => true,
        }
    }

    /// Whether reports of job `id` are still taken.
    pub open spec fn takes_reports(&self, id: u64) -> bool {
        self.spec_current() == Some(id) && self.spec_status() is InProgress
    }

    /// Appends `line` to the output of job `id`, while that job is current and running.
    pub fn record(&mut self, id: u64, line: LogLine)
        requires
            old(self).wf(),
        ensures
            final(self).wf(),
            final(self).spec_next_id() == old(self).spec_next_id(),
            final(self).spec_status() == old(self).spec_status(),
            final(self).spec_current() == old(self).spec_current(),
            final(self).spec_cancel() == old(self).spec_cancel(),
            final(self).spec_cap() == old(self).spec_cap(),
            final(self).spec_output() == if old(self).takes_reports(id) {
                newest(old(self).spec_output().push(line), old(self).spec_cap())
            } else {
                old(self).spec_output()
            },
    {
        if self.current == Some(id) && self.status.is_in_progress() {
            self.output.push(line);
        }
    }

    /// Appends each of `lines` to the output of job `id`, as `record` does.
    pub fn record_all(&mut self, id: u64, lines: Vec<LogLine>)
        requires
            old(self).wf(),
        ensures
            final(self).wf(),
            final(self).spec_next_id() == old(self).spec_next_id(),
            final(self).spec_status() == old(self).spec_status(),
            final(self).spec_current() == old(self).spec_current(),
            final(self).spec_cancel() == old(self).spec_cancel(),
            final(self).spec_cap() == old(self).spec_cap(),
            final(self).spec_output() == if old(self).takes_reports(id) {
                crate::output::appended_all(old(self).spec_output(), lines@, old(self).spec_cap())
            } else {
                old(self).spec_output()
            },
            old(self).takes_reports(id)
                ==> final(self).spec_output() == newest(old(self).spec_output() + lines@, old(self).spec_cap()),
    {
        if self.current == Some(id) && self.status.is_in_progress() {
            self.output.push_all(lines);
        }
    }

    /// Writes the terminal status of job `id`, once, while that job is current and running.
    /// The output is not touched, so all that the job logged precedes its end.
    pub fn finish(&mut self, id: u64, outcome: &JobOutcome)
        requires
            old(self).wf(),
        ensures
            final(self).wf(),
            final(self).spec_next_id() == old(self).spec_next_id(),
            final(self).spec_output() == old(self).spec_output(),
            final(self).spec_current() == old(self).spec_current(),
            final(self).spec_cancel() == old(self).spec_cancel(),
            final(self).spec_cap() == old(self).spec_cap(),
            old(self).takes_reports(id) ==> settles_on(final(self).spec_status(), *outcome),
            !old(self).takes_reports(id) ==> final(self).spec_status() == old(self).spec_status(),
    {
        if self.current == Some(id) && self.status.is_in_progress() {
            self.status = DownloadStatus::of_outcome(outcome);
        }
    }

    /// The status now; never waits on the job.
    pub fn poll(&self) -> (r: DownloadStatus)
        ensures
            r == self.spec_status(),
    {
        self.status.duplicate()
    }

    /// A copy of the output now, oldest line first.
    pub fn snapshot_output(&self) -> (r: Vec<LogLine>)
        ensures
            r@ == self.spec_output(),
    {
        self.output.snapshot()
    }

    /// Whether a job's status, output and cancellation flag are held.
    pub fn has_job(&self) -> (r: bool)
        ensures
            r == self.spec_current() is Some,
    {
        self.current.is_some()
    }

    /// Whether the current job's cancellation has been requested.
    pub fn cancel_requested(&self) -> (r: bool)
        ensures
            r == self.spec_cancel(),
    {
        self.cancel
    }

    /// Acknowledges a finished job and lets its cells go, so that another may start; does
    /// nothing while a job runs or when none is held.
    pub fn acknowledge(&mut self)
        requires
            old(self).wf(),
        ensures
            final(self).wf(),
            final(self).spec_next_id() == old(self).spec_next_id(),
            final(self).spec_cap() == old(self).spec_cap(),
            final(self).spec_output() == old(self).spec_output(),
            old(self).spec_status().spec_is_terminal() ==> {
                &&& final(self).spec_status() is NotStarted
                &&& final(self).spec_current() is None
                &&& !final(self).spec_cancel()
            },
            !old(self).spec_status().spec_is_terminal() ==> *final(self) == *old(self),
    {
        if self.status.is_terminal() {
            self.status = DownloadStatus::NotStarted;
            self.current = None;
            self.cancel = false;
        }
    }
}

} // verus!
