//! The error taxonomy of the controller and its collaborators.

use vstd::prelude::*;

verus! {

/// Why handling a power-condition change, or one of its collaborator
/// calls, failed.
#[derive(Clone, Copy, Debug, PartialEq, Eq, Structural)]
pub enum ControllerError {
    /// The display device could not be opened, read or written.
    Hardware,
    /// The settings store could not be read or written (a missing
    /// settings file is not an error; it yields the defaults).
    Persistence,
    /// The scheduler's background task is gone, so a submission could
    /// not be delivered.
    SchedulerUnavailable,
    /// A debounced action failed when it was invoked. Terminal for
    /// that one invocation only; the scheduler keeps serving.
    ActionFailure,
}

impl ControllerError {
    /// A short diagnostic name for logs.
    pub fn describe(&self) -> (r: &'static str)
        ensures
            self == ControllerError::Hardware ==> r@ == "hardware access failed"@,
            self == ControllerError::Persistence ==> r@ == "settings persistence failed"@,
            self == ControllerError::SchedulerUnavailable ==> r@ == "scheduler unavailable"@,
            self == ControllerError::ActionFailure ==> r@ == "scheduled action failed"@,
    {
        match self {
            ControllerError::Hardware => "hardware access failed",
            ControllerError::Persistence => "settings persistence failed",
            ControllerError::SchedulerUnavailable => "scheduler unavailable",
            ControllerError::ActionFailure => "scheduled action failed",
        }
    }
}

} // verus!
