use crate::text::str_eq;
use vstd::prelude::*;

verus! {

/// Lifecycle of a job as the registry tracks it.
#[derive(Clone, Copy, Debug, PartialEq, Eq, Structural)]
pub enum LifecycleStatus {
    Uninitialized,
    Pending,
    Running,
    Succeeded,
    Failed,
}

impl LifecycleStatus {
    pub open spec fn is_terminal(self) -> bool {
        self is Succeeded || self is Failed
    }

    /// Whether the job has reached a final state.
    pub fn is_finished(&self) -> (r: bool)
        ensures
            r == self.is_terminal(),
    {
        match self {
            LifecycleStatus::Succeeded | LifecycleStatus::Failed => true,
            _ => false,
        }
    }

    /// The client-facing name of this status.
    pub fn to_client(&self) -> (r: JobStatusEnum)
        ensures
            r == client_status(*self),
    {
        match self {
            LifecycleStatus::Uninitialized | LifecycleStatus::Pending => JobStatusEnum::INIT,
            LifecycleStatus::Running => JobStatusEnum::RUNNING,
            LifecycleStatus::Succeeded => JobStatusEnum::SUCCESSFULL,
            LifecycleStatus::Failed => JobStatusEnum::ERROR,
        }
    }
}

/// Job status as clients see it.
#[derive(Clone, Copy, Debug, PartialEq, Eq, Structural)]
pub enum JobStatusEnum {
    INIT,
    RUNNING,
    SUCCESSFULL,
    ERROR,
}

/// Why a requested job is missing from a listing.
#[derive(Clone, Copy, Debug, PartialEq, Eq, Structural)]
pub enum FailedJobStatusEnum {
    NotFound,
    Unauthorized,
}

/// An orchestrator phase that has no lifecycle status.
#[derive(Clone, Copy, Debug, PartialEq, Eq, Structural)]
pub struct InvalidJobStatus;

pub open spec fn client_status(s: LifecycleStatus) -> JobStatusEnum {
    match s {
        LifecycleStatus::Uninitialized | LifecycleStatus::Pending => JobStatusEnum::INIT,
        LifecycleStatus::Running => JobStatusEnum::RUNNING,
        LifecycleStatus::Succeeded => JobStatusEnum::SUCCESSFULL,
        LifecycleStatus::Failed => JobStatusEnum::ERROR,
    }
}

/// The lifecycle status an orchestrator phase maps to; `None` for a phase
/// outside the known vocabulary.
pub open spec fn phase_status(phase: Seq<char>) -> Option<LifecycleStatus> {
    if phase == "Init"@ || phase == "Pending"@ {
        Some(LifecycleStatus::Pending)
    } else if phase == "Running"@ {
        Some(LifecycleStatus::Running)
    } else if phase == "Succeeded"@ {
        Some(LifecycleStatus::Succeeded)
    } else if phase == "Failed"@ || phase == "Error"@ {
        Some(LifecycleStatus::Failed)
    } else {
        None
    }
}

/// Maps an orchestrator phase to a lifecycle status: `Init` and `Pending`
/// to pending, `Running`, `Succeeded`, and `Failed` or `Error` to failed.
pub fn parse_phase(phase: &str) -> (r: Option<LifecycleStatus>)
    ensures
        r == phase_status(phase@),
{
    if str_eq(phase, "Init") || str_eq(phase, "Pending") {
        Some(LifecycleStatus::Pending)
    } else if str_eq(phase, "Running") {
        Some(LifecycleStatus::Running)
    } else if str_eq(phase, "Succeeded") {
        Some(LifecycleStatus::Succeeded)
    } else if str_eq(phase, "Failed") || str_eq(phase, "Error") {
        Some(LifecycleStatus::Failed)
    } else {
        None
    }
}

impl JobStatusEnum {
    /// The client-facing status of an orchestrator phase.
    pub fn try_from(value: String) -> (r: Result<JobStatusEnum, InvalidJobStatus>)
        ensures
            match phase_status(value@) {
                Some(s) => r == Ok::<JobStatusEnum, InvalidJobStatus>(client_status(s)),
                None => r == Err::<JobStatusEnum, InvalidJobStatus>(InvalidJobStatus),
            },
    {
        match parse_phase(value.as_str()) {
            Some(s) => Ok(s.to_client()),
            None => Err(InvalidJobStatus),
        }
    }
}

} // verus!
