use nuwax_codex_acp::startup::{
    failure, log_target, FailureKind, LogTarget, Step, ENV_CODEX_LOG_DIR, LOG_FILE_NAME,
};

#[test]
fn log_goes_to_stderr_without_a_directory() {
    assert_eq!(log_target(None, false), LogTarget::Stderr);
    assert_eq!(log_target(None, true), LogTarget::Stderr);
    assert_eq!(log_target(Some(String::new()), false), LogTarget::Stderr);
    assert_eq!(log_target(Some(String::new()), true), LogTarget::Stderr);
}

#[test]
fn log_file_is_started_once() {
    let dir = || Some(" /var/log ".to_string());
    assert_eq!(
        log_target(dir(), false),
        LogTarget::StderrAndFile(" /var/log ".to_string())
    );
    assert_eq!(log_target(dir(), true), LogTarget::Unchanged);
    assert_eq!(ENV_CODEX_LOG_DIR, "CODEX_LOG_DIR");
    assert_eq!(LOG_FILE_NAME, "codex-acp.log");
}

#[test]
fn failures_name_their_step() {
    let report = failure(Step::ParseOverrides, "no `=`");
    assert_eq!(report.kind, FailureKind::InvalidInput);
    assert_eq!(report.message, "error parsing -c overrides: no `=`");
    let report = failure(Step::LoadConfig, "bad TOML");
    assert_eq!(report.kind, FailureKind::InvalidData);
    assert_eq!(report.message, "error loading config: bad TOML");
    let report = failure(Step::Serve, "closed");
    assert_eq!(report.kind, FailureKind::Other);
    assert_eq!(report.message, "ACP error: closed");
}
