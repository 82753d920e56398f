use dumbmem::error::{exit_code, first_error, RunError};

#[test]
fn run_of_successful_tasks_succeeds() {
    assert_eq!(first_error(&[]), Ok(()));
    assert_eq!(first_error(&[Ok(())]), Ok(()));
    assert_eq!(first_error(&[Ok(()), Ok(()), Ok(())]), Ok(()));
}

#[test]
fn first_failure_is_the_outcome_of_the_run() {
    assert_eq!(first_error(&[Err(RunError::Spawn)]), Err(RunError::Spawn));
    assert_eq!(
        first_error(&[Ok(()), Err(RunError::SinkWrite), Err(RunError::TaskFailed)]),
        Err(RunError::SinkWrite)
    );
    assert_eq!(
        first_error(&[Err(RunError::TaskFailed), Err(RunError::SinkWrite), Ok(())]),
        Err(RunError::TaskFailed)
    );
    assert_eq!(first_error(&[Ok(()), Ok(()), Err(RunError::Schedule)]), Err(RunError::Schedule));
}

#[test]
fn exit_status_is_zero_only_on_success() {
    assert_eq!(exit_code(&Ok(())), 0);
    let all: [RunError; 7] = [
        RunError::EmptyCommand,
        RunError::MismatchedQuotes,
        RunError::Spawn,
        RunError::SinkWrite,
        RunError::Schedule,
        RunError::TaskFailed,
        RunError::UnsupportedPlatform,
    ];
    for e in all.iter() {
        assert_eq!(exit_code(&Err(*e)), 1);
        assert!(!e.message().is_empty());
    }
}

#[test]
fn each_failure_has_its_message() {
    assert_eq!(RunError::EmptyCommand.message(), "invalid: empty command");
    assert_eq!(RunError::MismatchedQuotes.message(), "Mismatched quotes");
    assert_eq!(RunError::Spawn.message(), "failed to start child process");
    assert_eq!(RunError::SinkWrite.message(), "unable to write to the output file");
    assert_eq!(
        RunError::Schedule.message(),
        "unable to calculate next stat collection instant"
    );
    assert_eq!(RunError::TaskFailed.message(), "child process had a panic");
    assert_eq!(RunError::UnsupportedPlatform.message(), "dumbmem is linux only");
}
