//! The supervisor's exit reporting.
//!
//! The process runner starts the HTTP service, the delivery worker and the
//! cleanup worker concurrently, waits for whichever finishes first, and
//! tears the whole process down — a fail-together policy. What it logs
//! about the unit that exited is computed here.

use vstd::prelude::*;

verus! {

/// How a supervised task ended.
#[derive(Debug)]
pub enum TaskOutcome {
    /// The task ran to completion.
    Completed,
    /// The task returned an error, carried here.
    Failed(String),
    /// The task itself was lost before it could finish — cancelled or
    /// torn down — with the runner's description of why.
    Aborted(String),
}

impl TaskOutcome {
    /// The log line the supervisor writes for a finished task.
    pub fn report_exit(&self, task_name: &str) -> (r: String)
        ensures
            match self {
                TaskOutcome::Completed => r@ == task_name@ + " has exited"@,
                TaskOutcome::Failed(_) => r@ == task_name@ + " failed"@,
                TaskOutcome::Aborted(_) => r@ == task_name@ + "' task failed to complete"@,
            },
    {
        match self {
            TaskOutcome::Completed => String::from_str(task_name).concat(" has exited"),
            TaskOutcome::Failed(_) => String::from_str(task_name).concat(" failed"),
            TaskOutcome::Aborted(_) => String::from_str(task_name).concat(
                "' task failed to complete",
            ),
        }
    }

    /// The carried error description, if any.
    pub fn error_message(&self) -> (r: Option<&String>)
        ensures
            match self {
                TaskOutcome::Completed => r is None,
                TaskOutcome::Failed(m) => r == Some(m),
                TaskOutcome::Aborted(m) => r == Some(m),
            },
    {
        match self {
            TaskOutcome::Completed => None,
            TaskOutcome::Failed(m) => Some(m),
            TaskOutcome::Aborted(m) => Some(m),
        }
    }
}

/// The log line for a finished task: the free-function form the runner
/// calls.
pub fn report_exit(task_name: &str, outcome: &TaskOutcome) -> (r: String)
    ensures
        match outcome {
            TaskOutcome::Completed => r@ == task_name@ + " has exited"@,
            TaskOutcome::Failed(_) => r@ == task_name@ + " failed"@,
            TaskOutcome::Aborted(_) => r@ == task_name@ + "' task failed to complete"@,
        },
{
    outcome.report_exit(task_name)
}

} // verus!
