//! What an agent decides before it serves: where its log goes, and what it says
//! where it cannot start.
use vstd::prelude::*;

verus! {

/// The environment variable that names the directory for the log file.
pub const ENV_CODEX_LOG_DIR: &'static str = "CODEX_LOG_DIR";

/// The name of the log file.
pub const LOG_FILE_NAME: &'static str = "codex-acp.log";

/// Where the log goes.
#[derive(Debug, PartialEq, Eq)]
pub enum LogTarget {
    /// To standard error alone.
    Stderr,
    /// To standard error, and to the log file in this directory.
    StderrAndFile(String),
    /// Where it already goes.
    Unchanged,
}

/// Where the log goes: to a file as well where a directory is given, unless the
/// file was started before.
pub open spec fn log_target_for(log_dir: Option<String>, file_log_started: bool) -> LogTarget {
    match log_dir {
        Some(dir) => if dir@.len() == 0 {
            LogTarget::Stderr
        } else if file_log_started {
            LogTarget::Unchanged
        } else {
            LogTarget::StderrAndFile(dir)
        },
        None => LogTarget::Stderr,
    }
}

/// Decides where the log goes. `log_dir` is the value of
/// [`ENV_CODEX_LOG_DIR`], and `file_log_started` says whether this process
/// already writes a log file: it never starts a second one.
pub fn log_target(log_dir: Option<String>, file_log_started: bool) -> (res: LogTarget)
    ensures
        res == match log_dir {
            Some(dir) => if dir@.len() == 0 {
                LogTarget::Stderr
            } else if file_log_started {
                LogTarget::Unchanged
            } else {
                LogTarget::StderrAndFile(dir)
            },
            None => LogTarget::Stderr,
        },
        res == log_target_for(log_dir, file_log_started),
{
    match log_dir {
        Some(dir) => if dir.as_str().is_empty() {
            LogTarget::Stderr
        } else if file_log_started {
            LogTarget::Unchanged
        } else {
            LogTarget::StderrAndFile(dir)
        },
        None => LogTarget::Stderr,
    }
}

/// A step on which starting or serving failed.
#[derive(Debug, Clone, Copy, PartialEq, Eq, Structural)]
pub enum Step {
    /// Reading the overrides on the command line.
    ParseOverrides,
    /// Loading the configuration.
    LoadConfig,
    /// Serving the protocol.
    Serve,
}

/// The kind of error that a failure is reported as.
#[derive(Debug, Clone, Copy, PartialEq, Eq, Structural)]
pub enum FailureKind {
    InvalidInput,
    InvalidData,
    Other,
}

/// How a failure is reported.
#[derive(Debug, PartialEq, Eq)]
pub struct Failure {
    pub kind: FailureKind,
    pub message: String,
}

/// The kind of error that a failure of `step` is.
pub open spec fn failure_kind(step: Step) -> FailureKind {
    match step {
        Step::ParseOverrides => FailureKind::InvalidInput,
        Step::LoadConfig => FailureKind::InvalidData,
        Step::Serve => FailureKind::Other,
    }
}

/// What the report of a failure of `step` starts with.
pub open spec fn failure_prefix(step: Step) -> Seq<char> {
    match step {
        Step::ParseOverrides => "error parsing -c overrides: "@,
        Step::LoadConfig => "error loading config: "@,
        Step::Serve => "ACP error: "@,
    }
}

/// The report of a failure of `step`, for the reason `detail`.
pub fn failure(step: Step, detail: &str) -> (res: Failure)
    ensures
        res.kind == failure_kind(step),
        res.message@ == failure_prefix(step) + detail@,
{
    let (kind, prefix) = match step {
        Step::ParseOverrides => (FailureKind::InvalidInput, "error parsing -c overrides: "),
        Step::LoadConfig => (FailureKind::InvalidData, "error loading config: "),
        Step::Serve => (FailureKind::Other, "ACP error: "),
    };
    let mut message: String = prefix.to_string();
    message.append(detail);
    Failure { kind, message }
}

} // verus!
