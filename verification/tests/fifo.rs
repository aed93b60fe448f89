use dlt_user::fifo::{
    incoming_fifo_mode, incoming_fifo_path, SetupStep, StepOutcome, DIR, DIRECTORY_MODE, IRGRP,
    IREAD, IWGRP, IWRITE, LOG_PATH, USER_PATH,
};
use dlt_user::text::{parse_u32, u32_to_decimal};

#[test]
fn endpoint_names() {
    assert_eq!(LOG_PATH, "/tmp/dlt");
    assert_eq!(DIR, "/tmp/dltpipes");
    assert_eq!(USER_PATH, "/tmp/dltpipes/dlt");
    assert_eq!(incoming_fifo_path(0), "/tmp/dltpipes/dlt0");
    assert_eq!(incoming_fifo_path(7), "/tmp/dltpipes/dlt7");
    assert_eq!(incoming_fifo_path(4711), "/tmp/dltpipes/dlt4711");
    assert_eq!(incoming_fifo_path(u32::MAX), "/tmp/dltpipes/dlt4294967295");
}

#[test]
fn endpoint_modes() {
    assert_eq!(incoming_fifo_mode(), 0o660);
    assert_eq!(IREAD | IWRITE | IRGRP | IWGRP, 0o660);
    assert_eq!(DIRECTORY_MODE, 0o3777);
    assert_eq!(DIRECTORY_MODE & 0o770, 0o770);
}

fn run(outcomes: &[StepOutcome]) -> SetupStep {
    let mut step = SetupStep::first();
    for outcome in outcomes {
        assert!(!step.is_final());
        step = step.next(*outcome);
    }
    step
}

const OK: StepOutcome = StepOutcome::Succeeded;
const MISSING: StepOutcome = StepOutcome::Missing;
const FAILED: StepOutcome = StepOutcome::Failed;

#[test]
fn setup_twice_succeeds_twice() {
    // first run: no directory, nothing to remove
    assert_eq!(run(&[MISSING, OK, OK, MISSING, OK, OK]), SetupStep::Done);
    // second run: the directory and the endpoint of the first run are there
    assert_eq!(run(&[OK, OK, OK, OK, OK]), SetupStep::Done);
}

#[test]
fn setup_steps_in_order() {
    let step = SetupStep::first();
    assert_eq!(step, SetupStep::CheckDirectory);
    assert_eq!(step.next(MISSING), SetupStep::CreateDirectory);
    assert_eq!(step.next(OK), SetupStep::SetDirectoryMode);
    assert_eq!(SetupStep::CreateDirectory.next(OK), SetupStep::SetDirectoryMode);
    assert_eq!(SetupStep::SetDirectoryMode.next(OK), SetupStep::RemoveStaleEndpoint);
    assert_eq!(SetupStep::RemoveStaleEndpoint.next(OK), SetupStep::MakeEndpoint);
    assert_eq!(SetupStep::RemoveStaleEndpoint.next(MISSING), SetupStep::MakeEndpoint);
    assert_eq!(SetupStep::MakeEndpoint.next(OK), SetupStep::OpenEndpoint);
    assert_eq!(SetupStep::OpenEndpoint.next(OK), SetupStep::Done);
}

#[test]
fn setup_failures() {
    assert_eq!(SetupStep::CheckDirectory.next(FAILED), SetupStep::Failed);
    assert_eq!(SetupStep::CreateDirectory.next(FAILED), SetupStep::Failed);
    assert_eq!(SetupStep::CreateDirectory.next(MISSING), SetupStep::Failed);
    assert_eq!(SetupStep::SetDirectoryMode.next(FAILED), SetupStep::Failed);
    assert_eq!(SetupStep::RemoveStaleEndpoint.next(FAILED), SetupStep::Failed);
    assert_eq!(SetupStep::MakeEndpoint.next(FAILED), SetupStep::Failed);
    assert_eq!(SetupStep::MakeEndpoint.next(MISSING), SetupStep::Failed);
    assert_eq!(SetupStep::OpenEndpoint.next(FAILED), SetupStep::Failed);
    assert_eq!(SetupStep::OpenEndpoint.next(MISSING), SetupStep::Failed);
    assert_eq!(SetupStep::Failed.next(OK), SetupStep::Failed);
    assert_eq!(SetupStep::Done.next(FAILED), SetupStep::Done);
    // a stale endpoint that cannot be removed, or an endpoint that cannot
    // be made, is not opened
    assert_eq!(run(&[OK, OK, FAILED]), SetupStep::Failed);
    assert_eq!(run(&[OK, OK, OK, FAILED]), SetupStep::Failed);
    assert!(SetupStep::Done.is_final());
    assert!(SetupStep::Failed.is_final());
    assert!(!SetupStep::OpenEndpoint.is_final());
}

#[test]
fn decimal_text_reads_back() {
    for n in [0u32, 1, 9, 10, 11, 99, 100, 4711, 65535, 1_000_000, u32::MAX - 1, u32::MAX] {
        let text = u32_to_decimal(n);
        assert_eq!(text, n.to_string());
        assert_eq!(parse_u32(&text), Some(n));
    }
}
