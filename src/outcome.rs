use vstd::prelude::*;
use crate::status::RunStatus;

verus! {

/// The notification about a finished run: the label it was watched under,
/// and the conclusion it ended with.
#[derive(Clone, Debug, PartialEq, Eq)]
pub struct RunOutcome {
    pub step_name: String,
    pub step_status: String,
}

impl RunOutcome {
    /// Builds the outcome of a completed run.
    ///
    /// Only a terminal status has a conclusion to report, so a pending
    /// status is refused by the precondition.
    pub fn from_status(step_name: String, status: RunStatus) -> (r: RunOutcome)
        requires
            status is Completed,
        ensures
            r.step_name == step_name,
            r.step_status == status->conclusion,
    {
        match status {
            RunStatus::Completed { conclusion } => RunOutcome { step_name, step_status: conclusion },
            RunStatus::Pending => vstd::pervasive::unreached(),
        }
    }
}

} // verus!
