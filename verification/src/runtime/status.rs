//! Classification of a liveness probe.
//!
//! A probe runs the engine's `info` subcommand with a time limit. What
//! came of it is one of four things, and each maps to one status. A daemon
//! that is not there is the usual case and never an error: only a denied
//! permission is.

use crate::text::{contains_text, str_to_chars, text_contains};
use crate::types::{Runtime, RuntimeStatus, RuntimeType};
use vstd::prelude::*;

verus! {

/// Seconds after which a status probe is given up.
pub const STATUS_CHECK_TIMEOUT_SECS: u64 = 3;

/// What came of running the probe.
#[derive(Debug)]
pub enum ProbeOutcome {
    /// The process ran to its end within the time limit.
    Exited { success: bool, stderr: String },
    /// The process could not be started.
    SpawnFailed,
    /// The task that waited for the process failed.
    TaskFailed,
    /// The time limit passed before the process ended.
    TimedOut,
}

/// The words in the error output that tell of a denied permission.
pub open spec fn permission_marker() -> Seq<char> {
    "permission denied"@
}

/// The status that an outcome stands for.
pub open spec fn classify(outcome: ProbeOutcome) -> RuntimeStatus {
    match outcome {
        ProbeOutcome::Exited { success, stderr } => {
            if success {
                RuntimeStatus::Running
            } else if contains_text(stderr@, permission_marker()) {
                RuntimeStatus::Error
            } else {
                RuntimeStatus::Stopped
            }
        },
        ProbeOutcome::SpawnFailed => RuntimeStatus::Stopped,
        ProbeOutcome::TaskFailed => RuntimeStatus::Stopped,
        ProbeOutcome::TimedOut => RuntimeStatus::Unknown,
    }
}

/// The status that an outcome stands for.
///
/// A clean exit is `Running`. A failed exit is `Error` when the error
/// output holds `permission denied` and `Stopped` otherwise. A process
/// that could not be started is `Stopped`, and a probe that ran out of
/// time is `Unknown`.
pub fn classify_probe(outcome: &ProbeOutcome) -> (status: RuntimeStatus)
    ensures
        status == classify(*outcome),
{
    match outcome {
        ProbeOutcome::Exited { success, stderr } => {
            if *success {
                RuntimeStatus::Running
            } else {
                let hay = str_to_chars(stderr.as_str());
                let needle = str_to_chars("permission denied");
                if text_contains(hay.as_slice(), needle.as_slice()) {
                    RuntimeStatus::Error
                } else {
                    RuntimeStatus::Stopped
                }
            }
        },
        ProbeOutcome::SpawnFailed => RuntimeStatus::Stopped,
        ProbeOutcome::TaskFailed => RuntimeStatus::Stopped,
        ProbeOutcome::TimedOut => RuntimeStatus::Unknown,
    }
}

/// The status of a Docker daemon, from the outcome of `docker info`.
pub fn check_docker_status(outcome: &ProbeOutcome) -> (status: RuntimeStatus)
    ensures
        status == classify(*outcome),
{
    classify_probe(outcome)
}

/// The status of Podman, from the outcome of `podman info`.
pub fn check_podman_status(outcome: &ProbeOutcome) -> (status: RuntimeStatus)
    ensures
        status == classify(*outcome),
{
    classify_probe(outcome)
}

/// The status of `runtime`, from the outcome of its `info` probe.
pub fn check_status(runtime: &Runtime, outcome: &ProbeOutcome) -> (status: RuntimeStatus)
    ensures
        status == classify(*outcome),
{
    match runtime.runtime_type {
        RuntimeType::Docker => check_docker_status(outcome),
        RuntimeType::Podman => check_podman_status(outcome),
    }
}

/// A probe never reports `Error` unless the process ran, failed and spoke
/// of a denied permission; and it reports `Unknown` only when it ran out
/// of time.
pub proof fn lemma_error_only_for_permission(outcome: ProbeOutcome)
    ensures
        classify(outcome) == RuntimeStatus::Error <==> (outcome matches ProbeOutcome::Exited {
            success,
            stderr,
        } && !success && contains_text(stderr@, permission_marker())),
        classify(outcome) == RuntimeStatus::Unknown <==> outcome is TimedOut,
        outcome is SpawnFailed ==> classify(outcome) == RuntimeStatus::Stopped,
{
}

} // verus!
