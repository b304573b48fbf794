use upder::error::UpdateError;
use upder::fetch::FetchError;
use upder::locate::NotFoundError;
use upder::runner::RunError;

#[test]
fn every_error_has_a_description() {
    assert_eq!(
        UpdateError::EnvironmentVariableMissing("XDG_CONFIG_HOME".to_string()).describe(),
        "environment variable not set: XDG_CONFIG_HOME"
    );
    assert_eq!(
        UpdateError::ExecutableNotFound("flutter".to_string()).describe(),
        "Error: flutter not found"
    );
    assert_eq!(
        UpdateError::ProcessSpawnFailed("permission denied".to_string()).describe(),
        "failed to execute: permission denied"
    );
    assert_eq!(UpdateError::HttpStatusError(404).describe(), "unexpected HTTP status: 404");
    assert_eq!(
        UpdateError::FileAlreadyExists("/bin/ra".to_string()).describe(),
        "file already exists: /bin/ra"
    );
    assert_eq!(UpdateError::IoError("disk full".to_string()).describe(), "Error disk full");
}

#[test]
fn errors_are_copied_with_what_they_carry() {
    let errors = [
        UpdateError::EnvironmentVariableMissing("HOME".to_string()),
        UpdateError::ExecutableNotFound("rustup".to_string()),
        UpdateError::ProcessSpawnFailed("x".to_string()),
        UpdateError::HttpStatusError(503),
        UpdateError::FileAlreadyExists("/p".to_string()),
        UpdateError::IoError("m".to_string()),
    ];
    for error in errors.iter() {
        assert_eq!(&error.duplicate(), error);
    }
}

#[test]
fn failed_downloads_become_failures_of_the_run() {
    assert_eq!(
        UpdateError::from_fetch(FetchError::HttpStatus(500), "/bin/ra"),
        UpdateError::HttpStatusError(500)
    );
    assert_eq!(
        UpdateError::from_fetch(FetchError::AlreadyExists, "/bin/ra"),
        UpdateError::FileAlreadyExists("/bin/ra".to_string())
    );
    assert_eq!(
        UpdateError::from_fetch(FetchError::Io("reset".to_string()), "/bin/ra"),
        UpdateError::IoError("reset".to_string())
    );
}

#[test]
fn failed_commands_become_failures_of_the_run() {
    assert_eq!(
        UpdateError::from_run(RunError::SpawnFailed("no such file".to_string())),
        UpdateError::ProcessSpawnFailed("no such file".to_string())
    );
    assert_eq!(
        UpdateError::from_run(RunError::WaitFailed("interrupted".to_string())),
        UpdateError::IoError("interrupted".to_string())
    );
}

#[test]
fn failed_searches_become_failures_of_the_run() {
    assert_eq!(
        UpdateError::from_not_found(NotFoundError { name: "rustup".to_string() }),
        UpdateError::ExecutableNotFound("rustup".to_string())
    );
}
