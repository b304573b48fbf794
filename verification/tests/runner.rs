use upder::runner::{capture_text, exec_cmd, Command, RunError, RunOutcome};

#[test]
fn output_of_a_command_that_ran_is_its_text() {
    let outcome = RunOutcome::Exited { stdout: b"info: checking for self-update\n".to_vec() };
    assert_eq!(exec_cmd(outcome), Ok("info: checking for self-update\n".to_string()));
}

#[test]
fn empty_output_is_empty_text() {
    assert_eq!(exec_cmd(RunOutcome::Exited { stdout: Vec::new() }), Ok(String::new()));
}

#[test]
fn valid_utf8_is_decoded() {
    let outcome = RunOutcome::Exited { stdout: "größer ✓".as_bytes().to_vec() };
    assert_eq!(exec_cmd(outcome), Ok("größer ✓".to_string()));
}

#[test]
fn invalid_bytes_are_replaced_not_refused() {
    let outcome = RunOutcome::Exited { stdout: vec![b'o', b'k', 0xff, b'!'] };
    assert_eq!(exec_cmd(outcome), Ok("ok\u{fffd}!".to_string()));
}

#[test]
fn spawn_failure_is_handed_on() {
    let outcome = RunOutcome::SpawnFailed { message: "No such file or directory".to_string() };
    assert_eq!(
        exec_cmd(outcome),
        Err(RunError::SpawnFailed("No such file or directory".to_string()))
    );
}

#[test]
fn wait_failure_is_handed_on() {
    let outcome = RunOutcome::WaitFailed { message: "interrupted".to_string() };
    assert_eq!(exec_cmd(outcome), Err(RunError::WaitFailed("interrupted".to_string())));
}

#[test]
fn captured_text_is_the_text_given() {
    let outcome = RunOutcome::Exited { stdout: vec![1, 2, 3] };
    assert_eq!(capture_text(outcome, "decoded".to_string()), Ok("decoded".to_string()));
    let outcome = RunOutcome::SpawnFailed { message: "denied".to_string() };
    assert_eq!(
        capture_text(outcome, "ignored".to_string()),
        Err(RunError::SpawnFailed("denied".to_string()))
    );
}

#[test]
fn command_is_copied_with_its_arguments() {
    let command = Command {
        program: "rustup".to_string(),
        args: vec!["self".to_string(), "update".to_string()],
    };
    assert_eq!(command.duplicate(), command);
    let bare = Command { program: "true".to_string(), args: Vec::new() };
    assert_eq!(bare.duplicate(), bare);
}
