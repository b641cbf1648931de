use vstd::prelude::*;

verus! {

/// The errors that the engine reports.
#[derive(Debug, Clone, PartialEq, Eq)]
pub enum BldError {
    /// A file that a request names is missing, or a log path cannot be written.
    IoError(String),
    /// A request frame that could not be read as a pipeline request.
    SerdeError(String),
    /// The container engine rejected an operation.
    ShipliftError(String),
    /// A broken internal contract: a handle used before it exists, a
    /// duplicate execution id, an unusable setting.
    Other(String),
}

impl BldError {
    /// The text that the error carries.
    pub open spec fn message(self) -> Seq<char> {
        match self {
            BldError::IoError(m) => m@,
            BldError::SerdeError(m) => m@,
            BldError::ShipliftError(m) => m@,
            BldError::Other(m) => m@,
        }
    }

    /// The text of the error, as it is shown to a user.
    pub fn to_string(&self) -> (text: String)
        ensures
            text@ == self.message(),
    {
        match self {
            BldError::IoError(m) => m.clone(),
            BldError::SerdeError(m) => m.clone(),
            BldError::ShipliftError(m) => m.clone(),
            BldError::Other(m) => m.clone(),
        }
    }
}

/// How one step of a pipeline ended.
#[derive(Debug, Clone, Copy, PartialEq, Eq, Structural)]
pub enum StepOutcome {
    /// The command ran to its end.
    Success,
    /// The command, or the engine that ran it, failed.
    Failure,
    /// A stop request was seen before the command ended.
    Cancelled,
}

/// How a whole execution ended.
#[derive(Debug, Clone, Copy, PartialEq, Eq, Structural)]
pub enum ExecutionOutcome {
    /// Every step succeeded.
    Succeeded,
    /// A step failed, or the run was cut short by a fault.
    Failed,
    /// A step was stopped on request.
    Cancelled,
}

impl ExecutionOutcome {
    /// The outcome of a run that ends with a step that ended as `step` did.
    pub open spec fn of_step(step: StepOutcome) -> ExecutionOutcome {
        match step {
            StepOutcome::Success => ExecutionOutcome::Succeeded,
            StepOutcome::Failure => ExecutionOutcome::Failed,
            StepOutcome::Cancelled => ExecutionOutcome::Cancelled,
        }
    }

    /// Whether the run did anything but succeed.
    pub open spec fn is_failure(self) -> bool {
        self != ExecutionOutcome::Succeeded
    }
}

} // verus!
