use vstd::prelude::*;

verus! {

/// The value of the status field that marks a run as finished.
pub const COMPLETED_STATUS: &'static str = "completed";

/// Whether a raw status value is the terminal one.
pub open spec fn is_terminal_status(status: Seq<char>) -> bool {
    status == COMPLETED_STATUS@
}

/// Where the watched run stands, as one poll reported it.
///
/// A conclusion exists exactly when the run has completed: the variant
/// carries it, so a pending status cannot hold one.
#[derive(Clone, Debug, PartialEq, Eq)]
pub enum RunStatus {
    Pending,
    Completed { conclusion: String },
}

impl RunStatus {
    /// Whether this status is terminal.
    pub fn is_completed(&self) -> (r: bool)
        ensures
            r == (*self is Completed),
    {
        match self {
            RunStatus::Pending => false,
            RunStatus::Completed { .. } => true,
        }
    }
}

/// Why one status query produced no usable status.
#[derive(Clone, Copy, Debug, PartialEq, Eq)]
pub enum FetchError {
    /// The request failed on the network, timed out, or got a non-success response.
    Transport,
    /// The response lacked the status field, or was otherwise unusable.
    MalformedResponse,
}

/// What `parse_run_status` makes of the raw `status` and `conclusion` fields.
pub open spec fn parsed_status(
    status: Option<String>,
    conclusion: Option<String>,
) -> Result<RunStatus, FetchError> {
    match status {
        None => Err(FetchError::MalformedResponse),
        Some(s) => if is_terminal_status(s@) {
            match conclusion {
                Some(c) => Ok(RunStatus::Completed { conclusion: c }),
                None => Err(FetchError::MalformedResponse),
            }
        } else {
            Ok(RunStatus::Pending)
        },
    }
}

/// Normalizes the fields of a status response.
///
/// A missing status is malformed. The terminal status must come with a
/// conclusion, which the result carries unchanged. Any other status means
/// the run is still pending; a conclusion sent along with it is dropped.
pub fn parse_run_status(status: Option<String>, conclusion: Option<String>) -> (r: Result<
    RunStatus,
    FetchError,
>)
    ensures
        r == parsed_status(status, conclusion),
{
    match status {
        None => Err(FetchError::MalformedResponse),
        Some(s) => {
            let terminal = String::from_str(COMPLETED_STATUS);
            if s == terminal {
                match conclusion {
                    Some(c) => Ok(RunStatus::Completed { conclusion: c }),
                    None => Err(FetchError::MalformedResponse),
                }
            } else {
                Ok(RunStatus::Pending)
            }
        },
    }
}

} // verus!
