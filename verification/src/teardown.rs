//! Releasing the device at the end of a session.
//!
//! Teardown runs three steps in a fixed order: unconfigure the device, release the
//! claimed interface, reset the device. Each step is attempted whatever became of
//! the ones before it: a device that is left half released may need to be
//! unplugged, and every step that was tried improves the odds of recovery. The
//! failures are recorded, never propagated.

use vstd::prelude::*;

use crate::error::UsbError;

verus! {

/// One step of teardown.
#[derive(Clone, Copy, Debug, PartialEq, Eq, Structural)]
pub enum TeardownStep {
    /// Return the device to its unconfigured state.
    Unconfigure,
    /// Release the claimed interface.
    ReleaseInterface,
    /// Issue a USB reset.
    Reset,
}

/// What became of one step.
#[derive(Clone, Copy, Debug, PartialEq, Eq, Structural)]
pub enum StepOutcome {
    /// The step has not been attempted.
    Pending,
    /// The step was attempted and succeeded.
    Succeeded,
    /// The step was attempted and failed with this error.
    Failed(UsbError),
}

/// Progress and result of one teardown.
#[derive(Clone, Copy, Debug, PartialEq, Eq, Structural)]
pub struct Teardown {
    pub unconfigure: StepOutcome,
    pub release: StepOutcome,
    pub reset: StepOutcome,
}

/// What is recorded of an attempt that returned `result`.
pub open spec fn spec_outcome(result: Result<(), UsbError>) -> StepOutcome {
    match result {
        Ok(_) => StepOutcome::Succeeded,
        Err(error) => StepOutcome::Failed(error),
    }
}

impl Teardown {
    /// A teardown of which no step has been attempted.
    pub open spec fn spec_start() -> Teardown {
        Teardown {
            unconfigure: StepOutcome::Pending,
            release: StepOutcome::Pending,
            reset: StepOutcome::Pending,
        }
    }

    /// The step to attempt next: the first one, in the fixed order, that has not
    /// been attempted; `None` once all three have been.
    pub open spec fn spec_next_step(self) -> Option<TeardownStep> {
        if self.unconfigure is Pending {
            Some(TeardownStep::Unconfigure)
        } else if self.release is Pending {
            Some(TeardownStep::ReleaseInterface)
        } else if self.reset is Pending {
            Some(TeardownStep::Reset)
        } else {
            None
        }
    }

    /// The teardown after the step that was next has been attempted with `result`.
    pub open spec fn spec_record(self, result: Result<(), UsbError>) -> Teardown {
        match self.spec_next_step() {
            Some(TeardownStep::Unconfigure) => Teardown {
                unconfigure: spec_outcome(result),
                ..self
            },
            Some(TeardownStep::ReleaseInterface) => Teardown {
                release: spec_outcome(result),
                ..self
            },
            Some(TeardownStep::Reset) => Teardown { reset: spec_outcome(result), ..self },
            None => self,
        }
    }

    /// Whether all three steps have been attempted: the moment at which completion
    /// is signalled to whoever waits for the session to end.
    pub open spec fn spec_is_complete(self) -> bool {
        self.spec_next_step() is None
    }

    /// Whether any attempted step failed.
    pub open spec fn spec_has_failure(self) -> bool {
        self.unconfigure is Failed || self.release is Failed || self.reset is Failed
    }

    /// A teardown of which no step has been attempted.
    pub fn start() -> (teardown: Teardown)
        ensures
            teardown == Teardown::spec_start(),
    {
        Teardown {
            unconfigure: StepOutcome::Pending,
            release: StepOutcome::Pending,
            reset: StepOutcome::Pending,
        }
    }

    /// The step to attempt next, or `None` once all three have been attempted.
    pub fn next_step(&self) -> (step: Option<TeardownStep>)
        ensures
            step == self.spec_next_step(),
    {
        if is_pending(self.unconfigure) {
            Some(TeardownStep::Unconfigure)
        } else if is_pending(self.release) {
            Some(TeardownStep::ReleaseInterface)
        } else if is_pending(self.reset) {
            Some(TeardownStep::Reset)
        } else {
            None
        }
    }

    /// Records what became of the step that was next. A failure is kept in the
    /// record and skips nothing: the step after it is next all the same.
    pub fn record(self, result: Result<(), UsbError>) -> (after: Teardown)
        ensures
            after == self.spec_record(result),
    {
        let outcome = match result {
            Ok(_) => StepOutcome::Succeeded,
            Err(error) => StepOutcome::Failed(error),
        };
        match self.next_step() {
            Some(TeardownStep::Unconfigure) => Teardown {
                unconfigure: outcome,
                release: self.release,
                reset: self.reset,
            },
            Some(TeardownStep::ReleaseInterface) => Teardown {
                unconfigure: self.unconfigure,
                release: outcome,
                reset: self.reset,
            },
            Some(TeardownStep::Reset) => Teardown {
                unconfigure: self.unconfigure,
                release: self.release,
                reset: outcome,
            },
            None => self,
        }
    }

    /// Whether all three steps have been attempted.
    pub fn is_complete(&self) -> (complete: bool)
        ensures
            complete == self.spec_is_complete(),
    {
        self.next_step().is_none()
    }

    /// Whether any attempted step failed.
    pub fn has_failure(&self) -> (failed: bool)
        ensures
            failed == self.spec_has_failure(),
    {
        is_failed(self.unconfigure) || is_failed(self.release) || is_failed(self.reset)
    }
}

fn is_pending(outcome: StepOutcome) -> (pending: bool)
    ensures
        pending == (outcome is Pending),
{
    match outcome {
        StepOutcome::Pending => true,
        _ => false,
    }
}

fn is_failed(outcome: StepOutcome) -> (failed: bool)
    ensures
        failed == (outcome is Failed),
{
    match outcome {
        StepOutcome::Failed(_) => true,
        _ => false,
    }
}

/// Teardown attempts all three steps, in the order unconfigure, release, reset,
/// whatever each attempt returns: after three attempts it is complete and holds the
/// outcome of each, and it is not complete before.
pub proof fn lemma_teardown_attempts_every_step(
    first: Result<(), UsbError>,
    second: Result<(), UsbError>,
    third: Result<(), UsbError>,
)
    ensures
        ({
            let start = Teardown::spec_start();
            let after_first = start.spec_record(first);
            let after_second = after_first.spec_record(second);
            let after_third = after_second.spec_record(third);
            &&& start.spec_next_step() == Some(TeardownStep::Unconfigure)
            &&& after_first.spec_next_step() == Some(TeardownStep::ReleaseInterface)
            &&& after_second.spec_next_step() == Some(TeardownStep::Reset)
            &&& after_third.spec_next_step() is None
            &&& after_third.spec_is_complete()
            &&& !start.spec_is_complete() && !after_first.spec_is_complete()
                && !after_second.spec_is_complete()
            &&& after_third == Teardown {
                unconfigure: spec_outcome(first),
                release: spec_outcome(second),
                reset: spec_outcome(third),
            }
        }),
{
}

} // verus!
