//! What is particular to Podman: where it is usually installed, and its
//! rootless or rootful mode.

use crate::runtime::detection::{
    answers, mode_output, parse_rootless_mode, rootless_mode, version_observation,
    version_output, CommandOutcome, CommandOutcomeView, Detection, DetectionView, Observation,
    ObservationView,
};
use crate::runtime::locator::{candidate_views, locate, located, Candidate, Platform};
use crate::text::text_views;
use crate::types::{opt_text, PodmanMode, RuntimeType};
use vstd::prelude::*;

verus! {

/// The usual places of Podman on each platform. A place is a directory
/// that may hold the executable, or the executable itself.
pub open spec fn platform_paths(platform: Platform) -> Seq<Seq<char>> {
    match platform {
        Platform::Windows => seq![
            "C:\\Program Files\\RedHat\\Podman"@,
            "C:\\Program Files\\RedHat\\Podman\\podman.exe"@,
        ],
        Platform::MacOs => seq!["/usr/local/bin"@, "/opt/homebrew/bin"@, "/opt/podman/bin"@],
        Platform::Linux => seq!["/usr/bin"@, "/usr/local/bin"@, "/usr/libexec/podman"@],
        _ => Seq::empty(),
    }
}

/// The usual places of Podman on `platform`, in the order in which they
/// are looked at.
pub fn get_platform_paths(platform: Platform) -> (paths: Vec<String>)
    ensures
        text_views(paths@) == platform_paths(platform),
{
    let mut paths: Vec<String> = Vec::new();
    match platform {
        Platform::Windows => {
            paths.push("C:\\Program Files\\RedHat\\Podman".to_string());
            paths.push("C:\\Program Files\\RedHat\\Podman\\podman.exe".to_string());
        },
        Platform::MacOs => {
            paths.push("/usr/local/bin".to_string());
            paths.push("/opt/homebrew/bin".to_string());
            paths.push("/opt/podman/bin".to_string());
        },
        Platform::Linux => {
            paths.push("/usr/bin".to_string());
            paths.push("/usr/local/bin".to_string());
            paths.push("/usr/libexec/podman".to_string());
        },
        _ => {},
    }
    assert(text_views(paths@) =~= platform_paths(platform));
    paths
}

/// Where the Podman executable is, from the hit on the search path and
/// from what was seen at the usual places.
pub fn find_podman_executable(
    search_path_hit: Option<String>,
    candidates: &Vec<Candidate>,
    platform: Platform,
) -> (r: Option<String>)
    ensures
        opt_text(r) == located(
            opt_text(search_path_hit),
            candidate_views(candidates@),
            "podman"@,
            platform,
        ),
{
    locate(search_path_hit, candidates, "podman", platform)
}

/// The mode of Podman, from what came of its mode query. Where the query
/// says nothing usable the mode is taken to be rootless, so a mode is
/// always given.
pub fn detect_rootless_mode(outcome: CommandOutcome) -> (mode: Option<PodmanMode>)
    ensures
        mode == Some(rootless_mode(mode_output(outcome@))),
{
    let output = match outcome {
        CommandOutcome::Exited { success, stdout } => {
            if success {
                match stdout {
                    Ok(text) => Some(text),
                    Err(_) => None,
                }
            } else {
                None
            }
        },
        CommandOutcome::SpawnFailed(_) => None,
    };
    Some(parse_rootless_mode(&output))
}

/// What `podman --version` gave, as the observation of the version stage.
pub fn get_podman_version(outcome: CommandOutcome) -> (observation: Observation)
    ensures
        observation@ == ObservationView::VersionOutput(
            version_output(RuntimeType::Podman, outcome@),
        ),
{
    version_observation(RuntimeType::Podman, outcome)
}

/// Whether Podman answers, from what came of `podman info`.
pub fn check_podman_running(outcome: &CommandOutcome) -> (up: bool)
    ensures
        up == answers(outcome@),
{
    match outcome {
        CommandOutcome::Exited { success, .. } => *success,
        CommandOutcome::SpawnFailed(_) => false,
    }
}

/// The start of a detection of Podman with a budget of `timeout_ms`
/// milliseconds.
pub fn detect_podman(timeout_ms: u64) -> (detection: Detection)
    ensures
        detection@ == DetectionView::initial(RuntimeType::Podman, timeout_ms as nat, false),
        detection@.wf(),
{
    Detection::new(RuntimeType::Podman, timeout_ms, false)
}

} // verus!
