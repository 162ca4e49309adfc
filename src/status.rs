use vstd::prelude::*;
use vstd::string::*;
use crate::log::line_text;
use crate::sequencer::JobOutcome;

verus! {

/// Where a download job stands, as the foreground sees it.
#[derive(Clone, Debug, PartialEq, Eq)]
pub enum DownloadStatus {
    NotStarted,
    InProgress,
    Completed,
    Failed(String),
}

/// The reason given for a job that was cancelled.
pub open spec fn cancelled_reason() -> Seq<char> {
    seq!['c', 'a', 'n', 'c', 'e', 'l', 'l', 'e', 'd']
}

/// Whether `s` is the status that a job with outcome `o` settles on.
pub open spec fn settles_on(s: DownloadStatus, o: JobOutcome) -> bool {
    match o {
        JobOutcome::Completed => s is Completed,
        JobOutcome::Cancelled => s is Failed && s->0@ == cancelled_reason(),
        JobOutcome::Failed { reason } => s is Failed && s->0@ == line_text(reason),
    }
}

impl DownloadStatus {
    /// A job in this status has finished and will not be written again.
    pub open spec fn spec_is_terminal(&self) -> bool {
        self is Completed || self is Failed
    }

    pub fn is_terminal(&self) -> (r: bool)
        ensures
            r == self.spec_is_terminal(),
    {
        match self {
            DownloadStatus::Completed => true,
            DownloadStatus::Failed(_) => true,
            _ => false,
        }
    }

    pub fn is_in_progress(&self) -> (r: bool)
        ensures
            r == self is InProgress,
    {
        match self {
            DownloadStatus::InProgress => true,
            _ => false,
        }
    }

    /// The terminal status of a job that ended with `outcome`.
    pub fn of_outcome(outcome: &JobOutcome) -> (r: DownloadStatus)
        ensures
            settles_on(r, *outcome),
    {
        match outcome {
            JobOutcome::Completed => DownloadStatus::Completed,
            JobOutcome::Cancelled => {
                proof {
                    reveal_strlit("cancelled");
                    assert("cancelled"@ =~= cancelled_reason());
                }
                DownloadStatus::Failed(String::from_str("cancelled"))
            },
            JobOutcome::Failed { reason } => DownloadStatus::Failed(reason.text()),
        }
    }

    /// A copy of this status.
    pub fn duplicate(&self) -> (r: DownloadStatus)
        ensures
            r == *self,
    {
        match self {
            DownloadStatus::NotStarted => DownloadStatus::NotStarted,
            DownloadStatus::InProgress => DownloadStatus::InProgress,
            DownloadStatus::Completed => DownloadStatus::Completed,
            DownloadStatus::Failed(reason) => DownloadStatus::Failed(reason.clone()),
        }
    }
}

} // verus!
