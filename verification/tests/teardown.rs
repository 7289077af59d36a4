use gabinator::error::UsbError;
use gabinator::teardown::{StepOutcome, Teardown, TeardownStep};

/// A device handle that records what teardown asked of it and fails the steps it is
/// told to fail.
struct FakeHandle {
    fail_unconfigure: bool,
    fail_release: bool,
    fail_reset: bool,
    calls: Vec<TeardownStep>,
}

impl FakeHandle {
    fn attempt(&mut self, step: TeardownStep) -> Result<(), UsbError> {
        self.calls.push(step);
        let fails = match step {
            TeardownStep::Unconfigure => self.fail_unconfigure,
            TeardownStep::ReleaseInterface => self.fail_release,
            TeardownStep::Reset => self.fail_reset,
        };
        if fails {
            Err(UsbError::NoDevice)
        } else {
            Ok(())
        }
    }
}

fn tear_down(handle: &mut FakeHandle) -> Teardown {
    let mut teardown = Teardown::start();
    while let Some(step) = teardown.next_step() {
        let result = handle.attempt(step);
        teardown = teardown.record(result);
    }
    teardown
}

#[test]
fn teardown_runs_the_three_steps_in_order() {
    let mut handle =
        FakeHandle { fail_unconfigure: false, fail_release: false, fail_reset: false, calls: Vec::new() };
    let done = tear_down(&mut handle);
    assert_eq!(
        handle.calls,
        vec![TeardownStep::Unconfigure, TeardownStep::ReleaseInterface, TeardownStep::Reset]
    );
    assert!(done.is_complete());
    assert!(!done.has_failure());
    assert_eq!(
        done,
        Teardown {
            unconfigure: StepOutcome::Succeeded,
            release: StepOutcome::Succeeded,
            reset: StepOutcome::Succeeded,
        }
    );
}

#[test]
fn failed_unconfigure_does_not_skip_release_and_reset() {
    let mut handle =
        FakeHandle { fail_unconfigure: true, fail_release: false, fail_reset: false, calls: Vec::new() };
    let done = tear_down(&mut handle);
    assert_eq!(
        handle.calls,
        vec![TeardownStep::Unconfigure, TeardownStep::ReleaseInterface, TeardownStep::Reset]
    );
    assert!(done.is_complete());
    assert!(done.has_failure());
    assert_eq!(done.unconfigure, StepOutcome::Failed(UsbError::NoDevice));
    assert_eq!(done.release, StepOutcome::Succeeded);
    assert_eq!(done.reset, StepOutcome::Succeeded);
}

#[test]
fn every_step_is_attempted_when_all_fail() {
    let mut handle =
        FakeHandle { fail_unconfigure: true, fail_release: true, fail_reset: true, calls: Vec::new() };
    let done = tear_down(&mut handle);
    assert_eq!(handle.calls.len(), 3);
    assert!(done.is_complete());
    assert_eq!(
        done,
        Teardown {
            unconfigure: StepOutcome::Failed(UsbError::NoDevice),
            release: StepOutcome::Failed(UsbError::NoDevice),
            reset: StepOutcome::Failed(UsbError::NoDevice),
        }
    );
}

#[test]
fn teardown_is_not_complete_before_the_third_step() {
    let start = Teardown::start();
    assert!(!start.is_complete());
    assert_eq!(start.next_step(), Some(TeardownStep::Unconfigure));
    let one = start.record(Err(UsbError::Busy));
    assert!(!one.is_complete());
    assert_eq!(one.next_step(), Some(TeardownStep::ReleaseInterface));
    let two = one.record(Ok(()));
    assert!(!two.is_complete());
    assert_eq!(two.next_step(), Some(TeardownStep::Reset));
    let three = two.record(Ok(()));
    assert!(three.is_complete());
    assert_eq!(three.next_step(), None);
}

#[test]
fn complete_teardown_records_nothing_more() {
    let done = Teardown::start().record(Ok(())).record(Ok(())).record(Ok(()));
    assert_eq!(done.record(Err(UsbError::Io)), done);
}
