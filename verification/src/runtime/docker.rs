//! What is particular to Docker: where it is usually installed, and the
//! Docker of the Windows side seen from a Linux that runs under Windows.

use crate::runtime::detection::{
    answers, running_observation, version_observation, version_output, CommandOutcome,
    CommandOutcomeView, Detection, DetectionView, Observation, ObservationView,
};
use crate::runtime::locator::{
    candidate_views, is_wsl_host, locate, located, tells_of_wsl, Candidate, Platform,
};
use crate::text::text_views;
use crate::types::{opt_text, RuntimeType};
use vstd::prelude::*;

verus! {

/// The usual places of Docker on each platform. A place is a directory
/// that may hold the executable, or the executable itself.
pub open spec fn platform_paths(platform: Platform) -> Seq<Seq<char>> {
    match platform {
        Platform::Windows => seq![
            "C:\\Program Files\\Docker\\Docker\\resources\\bin"@,
            "C:\\Program Files\\Docker\\Docker\\resources\\bin\\docker.exe"@,
        ],
        Platform::MacOs => seq![
            "/usr/local/bin"@,
            "/opt/homebrew/bin"@,
            "/Applications/Docker.app/Contents/Resources/bin"@,
        ],
        Platform::Linux => seq!["/usr/bin"@, "/usr/local/bin"@, "/snap/bin"@],
        _ => Seq::empty(),
    }
}

/// The usual places of Docker on `platform`, in the order in which they
/// are looked at.
pub fn get_platform_paths(platform: Platform) -> (paths: Vec<String>)
    ensures
        text_views(paths@) == platform_paths(platform),
{
    let mut paths: Vec<String> = Vec::new();
    match platform {
        Platform::Windows => {
            paths.push("C:\\Program Files\\Docker\\Docker\\resources\\bin".to_string());
            paths.push(
                "C:\\Program Files\\Docker\\Docker\\resources\\bin\\docker.exe".to_string(),
            );
        },
        Platform::MacOs => {
            paths.push("/usr/local/bin".to_string());
            paths.push("/opt/homebrew/bin".to_string());
            paths.push("/Applications/Docker.app/Contents/Resources/bin".to_string());
        },
        Platform::Linux => {
            paths.push("/usr/bin".to_string());
            paths.push("/usr/local/bin".to_string());
            paths.push("/snap/bin".to_string());
        },
        _ => {},
    }
    assert(text_views(paths@) =~= platform_paths(platform));
    paths
}

/// Where the Docker executable is, from the hit on the search path and
/// from what was seen at the usual places.
pub fn find_docker_executable(
    search_path_hit: Option<String>,
    candidates: &Vec<Candidate>,
    platform: Platform,
) -> (r: Option<String>)
    ensures
        opt_text(r) == located(
            opt_text(search_path_hit),
            candidate_views(candidates@),
            "docker"@,
            platform,
        ),
{
    locate(search_path_hit, candidates, "docker", platform)
}

/// The Docker of the Windows side, if the host is a Linux that runs under
/// Windows: `windows_docker`, the hit for `docker.exe` on the search path,
/// counts only when the host is Linux and the text of `/proc/version`
/// could be read and tells of Windows.
pub open spec fn wsl_docker(
    platform: Platform,
    proc_version: Option<Seq<char>>,
    windows_docker: Option<Seq<char>>,
) -> Option<Seq<char>> {
    if platform == Platform::Linux && proc_version is Some && tells_of_wsl(proc_version->0) {
        windows_docker
    } else {
        None
    }
}

/// The Docker of the Windows side, if the host is a Linux that runs under
/// Windows.
pub fn detect_wsl_docker(
    platform: Platform,
    proc_version: &Option<String>,
    windows_docker: Option<String>,
) -> (r: Option<String>)
    ensures
        opt_text(r) == wsl_docker(platform, opt_text(*proc_version), opt_text(windows_docker)),
{
    let linux = match platform {
        Platform::Linux => true,
        _ => false,
    };
    if !linux {
        return None;
    }
    match proc_version {
        Some(text) => {
            if is_wsl_host(text.as_str()) {
                windows_docker
            } else {
                None
            }
        },
        None => None,
    }
}

/// What `docker --version` gave, as the observation of the version stage.
pub fn get_docker_version(outcome: CommandOutcome) -> (observation: Observation)
    ensures
        observation@ == ObservationView::VersionOutput(
            version_output(RuntimeType::Docker, outcome@),
        ),
{
    version_observation(RuntimeType::Docker, outcome)
}

/// Whether the Docker daemon answers, from what came of `docker info`.
pub fn check_docker_running(outcome: &CommandOutcome) -> (up: bool)
    ensures
        up == answers(outcome@),
{
    match outcome {
        CommandOutcome::Exited { success, .. } => *success,
        CommandOutcome::SpawnFailed(_) => false,
    }
}

/// The start of a detection of Docker with a budget of `timeout_ms`
/// milliseconds.
pub fn detect_docker(timeout_ms: u64, on_linux: bool) -> (detection: Detection)
    ensures
        detection@ == DetectionView::initial(RuntimeType::Docker, timeout_ms as nat, on_linux),
        detection@.wf(),
{
    Detection::new(RuntimeType::Docker, timeout_ms, on_linux)
}

} // verus!
