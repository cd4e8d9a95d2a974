//! The lifecycle state of a submitted job.

use vstd::prelude::*;
use vstd::string::*;
use crate::text::{bracketed_decimals, push_bracketed_decimals};

verus! {

/// The current state of a job.
#[derive(Debug, Clone, PartialEq)]
pub enum JobStatus {
    Pending,
    Running,
    /// One exit code per execution, in the same order as the job's executions.
    Completed(Vec<i32>),
    Failed(String),
    Cancelled,
}

/// A job has finished exactly when it has completed, whatever its exit
/// codes, failed, whatever the message, or been cancelled; a pending or
/// running job has not.
pub proof fn lemma_terminal_states(codes: Vec<i32>, message: String)
    ensures
        JobStatus::Completed(codes).spec_is_terminal(),
        JobStatus::Failed(message).spec_is_terminal(),
        JobStatus::Cancelled.spec_is_terminal(),
        !JobStatus::Pending.spec_is_terminal(),
        !JobStatus::Running.spec_is_terminal(),
{
}

impl JobStatus {
    /// A job is finished once it has completed, failed, or been cancelled.
    pub open spec fn spec_is_terminal(self) -> bool {
        self is Completed || self is Failed || self is Cancelled
    }

    /// Returns true if the job has finished (success or failure).
    pub fn is_terminal(&self) -> (res: bool)
        ensures
            res == self.spec_is_terminal(),
    {
        match self {
            JobStatus::Completed(_) | JobStatus::Failed(_) | JobStatus::Cancelled => true,
            _ => false,
        }
    }

    /// The human-readable rendering of a status.
    pub open spec fn spec_display_text(self) -> Seq<char> {
        match self {
            JobStatus::Pending => "Pending"@,
            JobStatus::Running => "Running"@,
            JobStatus::Completed(codes) => "Completed: "@ + bracketed_decimals(codes@),
            JobStatus::Failed(msg) => "Failed: "@ + msg@,
            JobStatus::Cancelled => "Cancelled"@,
        }
    }

    /// The human-readable rendering of this status, such as `Pending`,
    /// `Completed: [0, 0, 1]` or `Failed: out of memory`.
    pub fn display_text(&self) -> (res: String)
        ensures
            res@ == self.spec_display_text(),
    {
        match self {
            JobStatus::Pending => String::from_str("Pending"),
            JobStatus::Running => String::from_str("Running"),
            JobStatus::Completed(codes) => {
                let mut out = String::from_str("Completed: ");
                push_bracketed_decimals(&mut out, codes);
                out
            },
            JobStatus::Failed(msg) => String::from_str("Failed: ").concat(msg.as_str()),
            JobStatus::Cancelled => String::from_str("Cancelled"),
        }
    }
}

} // verus!
