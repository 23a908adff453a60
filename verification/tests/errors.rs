use network_tunnel::errors::{Error, IoError, IoErrorKind};

#[test]
fn message_of_an_io_failure_is_its_own_text() {
    let error = Error::IO(IoError {
        kind: IoErrorKind::NotFound,
        message: "No such file or directory (os error 2)".to_string(),
    });
    assert_eq!(error.message(), "No such file or directory (os error 2)");
}

#[test]
fn message_of_a_bad_exit_names_the_status() {
    let error = Error::TunnelExitNonZero("ExitStatus(unix_wait_status(65280))".to_string());
    assert_eq!(
        error.message(),
        "SSH forwarding network tunnel exit with non-zero exit code ExitStatus(unix_wait_status(65280))"
    );
}

#[test]
fn message_of_a_bad_exit_with_an_empty_status() {
    assert_eq!(
        Error::TunnelExitNonZero(String::new()).message(),
        "SSH forwarding network tunnel exit with non-zero exit code "
    );
}

#[test]
fn message_of_a_transport_failure_is_passed_on() {
    let error = Error::SSH("ssh: connect to host h port 22: Connection refused".to_string());
    assert_eq!(error.message(), "ssh: connect to host h port 22: Connection refused");
}

#[test]
fn only_invalid_input_is_invalid_input() {
    let failure = |kind| IoError { kind, message: String::new() };
    assert!(failure(IoErrorKind::InvalidInput).is_invalid_input());
    assert!(!failure(IoErrorKind::NotFound).is_invalid_input());
    assert!(!failure(IoErrorKind::PermissionDenied).is_invalid_input());
    assert!(!failure(IoErrorKind::Other).is_invalid_input());
}
