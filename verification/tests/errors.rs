use reticle::errors::{KillError, SendError, SpawnError};

#[test]
fn duplicate_run_message() {
    let error = SpawnError::DuplicateRun("job-1".to_string());
    assert_eq!(error.message(), "runner 'job-1' is already running");
}

#[test]
fn launch_failure_message_is_the_reason() {
    let error = SpawnError::Launch("No such file or directory".to_string());
    assert_eq!(error.message(), "No such file or directory");
}

#[test]
fn not_found_message() {
    let error = SendError::NotFound("ghost".to_string());
    assert_eq!(error.message(), "no runner with id 'ghost'");
}

#[test]
fn write_failure_message_is_the_reason() {
    let error = SendError::Io("Broken pipe".to_string());
    assert_eq!(error.message(), "Broken pipe");
}

#[test]
fn kill_failure_message_is_the_reason() {
    let error = KillError::Terminate("Operation not permitted".to_string());
    assert_eq!(error.message(), "Operation not permitted");
}
