use harbor_master::runtime::detection::{
    mode_observation, parse_rootless_mode, running_observation, version_observation,
    CommandOutcome, Detection, Observation, Stage,
};
use harbor_master::runtime::detector::{DetectionPlan, RuntimeDetector};
use harbor_master::runtime::docker::{
    check_docker_running, detect_docker, detect_wsl_docker, find_docker_executable,
    get_docker_version,
};
use harbor_master::runtime::locator::{
    candidate_executable, is_wsl_host, locate, verify_executable, Candidate, FileFacts, Platform,
};
use harbor_master::runtime::podman::{
    check_podman_running, detect_podman, detect_rootless_mode, find_podman_executable,
    get_podman_version,
};
use harbor_master::runtime::status::{
    check_docker_status, check_podman_status, check_status, classify_probe, ProbeOutcome,
    STATUS_CHECK_TIMEOUT_SECS,
};
use harbor_master::types::{
    DetectionResult, PodmanMode, Runtime, RuntimeStatus, RuntimeType, Version,
};

fn create_test_runtime(runtime_type: RuntimeType, path: &str) -> Runtime {
    Runtime {
        id: "test".to_string(),
        runtime_type,
        path: path.to_string(),
        version: Version { major: 24, minor: 0, patch: 7, full: "24.0.7".to_string() },
        status: RuntimeStatus::Unknown,
        last_checked: 0,
        detected_at: 0,
        mode: None,
        is_wsl: None,
        error: None,
        version_warning: None,
    }
}

fn exited(success: bool, stdout: &str) -> CommandOutcome {
    CommandOutcome::Exited { success, stdout: Ok(stdout.to_string()) }
}

fn dir_candidate(path: &str, name: &str, inner_is_file: bool, inner_exe_is_file: bool) -> Candidate {
    Candidate {
        path: path.to_string(),
        file_name: path.rsplit('/').next().unwrap_or("").to_string(),
        is_file: false,
        is_dir: true,
        inner: format!("{}/{}", path, name),
        inner_is_file,
        inner_exe: format!("{}/{}.exe", path, name),
        inner_exe_is_file,
    }
}

#[test]
fn docker_test_get_platform_paths() {
    let paths = harbor_master::runtime::docker::get_platform_paths(Platform::Linux);
    assert!(!paths.is_empty());
    assert!(paths.contains(&"/usr/bin".to_string()));
    let expected_paths = vec!["/usr/local/bin", "/opt/homebrew/bin"];
    let mac = harbor_master::runtime::docker::get_platform_paths(Platform::MacOs);
    for expected in expected_paths {
        assert!(mac.iter().any(|p| p == expected));
    }
}

#[test]
fn podman_test_get_platform_paths() {
    let paths = harbor_master::runtime::podman::get_platform_paths(Platform::Linux);
    assert!(!paths.is_empty());
    assert!(paths.iter().any(|p| p == "/usr/bin"));
    let expected_paths = vec!["/usr/local/bin", "/opt/homebrew/bin"];
    let mac = harbor_master::runtime::podman::get_platform_paths(Platform::MacOs);
    for expected in expected_paths {
        assert!(mac.iter().any(|p| p == expected));
    }
}

#[test]
fn platform_paths_in_full() {
    assert_eq!(
        harbor_master::runtime::docker::get_platform_paths(Platform::Linux),
        vec!["/usr/bin", "/usr/local/bin", "/snap/bin"]
    );
    assert_eq!(
        harbor_master::runtime::docker::get_platform_paths(Platform::MacOs),
        vec![
            "/usr/local/bin",
            "/opt/homebrew/bin",
            "/Applications/Docker.app/Contents/Resources/bin"
        ]
    );
    assert_eq!(
        harbor_master::runtime::docker::get_platform_paths(Platform::Windows),
        vec![
            r"C:\Program Files\Docker\Docker\resources\bin",
            r"C:\Program Files\Docker\Docker\resources\bin\docker.exe"
        ]
    );
    assert_eq!(
        harbor_master::runtime::podman::get_platform_paths(Platform::Linux),
        vec!["/usr/bin", "/usr/local/bin", "/usr/libexec/podman"]
    );
    assert_eq!(
        harbor_master::runtime::podman::get_platform_paths(Platform::Windows),
        vec![r"C:\Program Files\RedHat\Podman", r"C:\Program Files\RedHat\Podman\podman.exe"]
    );
    assert!(harbor_master::runtime::podman::get_platform_paths(Platform::Other).is_empty());
    assert!(harbor_master::runtime::docker::get_platform_paths(Platform::OtherUnix).is_empty());
}

#[test]
fn test_verify_executable_permissions() {
    // An executable file.
    let facts = FileFacts { readable: true, is_file: true, mode: 0o755 };
    assert!(verify_executable(Platform::Linux, &facts));

    // A path that does not exist.
    let missing = FileFacts { readable: false, is_file: false, mode: 0 };
    assert!(!verify_executable(Platform::Linux, &missing));
}

#[test]
fn verify_executable_by_platform() {
    let plain = FileFacts { readable: true, is_file: true, mode: 0o644 };
    assert!(!verify_executable(Platform::Linux, &plain));
    assert!(!verify_executable(Platform::MacOs, &plain));
    assert!(verify_executable(Platform::Windows, &plain));
    assert!(!verify_executable(Platform::Other, &plain));
    for mode in [0o100u32, 0o010, 0o001, 0o111, 0o700] {
        let facts = FileFacts { readable: true, is_file: true, mode };
        assert!(verify_executable(Platform::OtherUnix, &facts));
    }
    let unreadable = FileFacts { readable: false, is_file: true, mode: 0o755 };
    assert!(!verify_executable(Platform::Linux, &unreadable));
    let dir = FileFacts { readable: true, is_file: false, mode: 0o755 };
    assert!(!verify_executable(Platform::Windows, &dir));
}

#[test]
fn test_detect_wsl_docker() {
    // Outside WSL nothing is found, whatever the search path holds.
    let result = detect_wsl_docker(Platform::Linux, &None, None);
    assert!(result.is_none());
}

#[test]
fn wsl_docker_needs_linux_and_wsl_text() {
    let wsl = Some("Linux version 5.15.90.1-microsoft-standard-WSL2".to_string());
    let exe = Some("/mnt/c/Program Files/Docker/docker.exe".to_string());
    assert_eq!(detect_wsl_docker(Platform::Linux, &wsl, exe.clone()), exe);
    assert_eq!(detect_wsl_docker(Platform::Linux, &wsl, None), None);
    assert_eq!(detect_wsl_docker(Platform::MacOs, &wsl, exe.clone()), None);
    assert_eq!(detect_wsl_docker(Platform::Windows, &wsl, exe.clone()), None);
    let plain = Some("Linux version 6.1.0 (gcc 12)".to_string());
    assert_eq!(detect_wsl_docker(Platform::Linux, &plain, exe.clone()), None);
    assert_eq!(detect_wsl_docker(Platform::Linux, &None, exe), None);
    assert!(is_wsl_host("MICROSOFT"));
    assert!(is_wsl_host("xxWsLxx"));
    assert!(!is_wsl_host("micro soft ws l"));
    assert!(!is_wsl_host(""));
}

#[test]
fn test_detect_rootless_mode() {
    // A query that cannot run still gives a mode.
    let mode = detect_rootless_mode(CommandOutcome::SpawnFailed("No such file".to_string()));
    if let Some(m) = mode {
        assert!(m == PodmanMode::Rootful || m == PodmanMode::Rootless);
    }
    assert_eq!(mode, Some(PodmanMode::Rootless));
}

#[test]
fn rootless_mode_words() {
    assert_eq!(detect_rootless_mode(exited(true, "true\n")), Some(PodmanMode::Rootless));
    assert_eq!(detect_rootless_mode(exited(true, "false\n")), Some(PodmanMode::Rootful));
    assert_eq!(detect_rootless_mode(exited(true, "  FALSE \t")), Some(PodmanMode::Rootful));
    assert_eq!(detect_rootless_mode(exited(true, "maybe")), Some(PodmanMode::Rootless));
    assert_eq!(detect_rootless_mode(exited(true, "")), Some(PodmanMode::Rootless));
    assert_eq!(detect_rootless_mode(exited(false, "false")), Some(PodmanMode::Rootless));
    assert_eq!(parse_rootless_mode(&Some("False".to_string())), PodmanMode::Rootful);
    assert_eq!(parse_rootless_mode(&Some("fal se".to_string())), PodmanMode::Rootless);
    assert_eq!(parse_rootless_mode(&None), PodmanMode::Rootless);
}

#[test]
fn test_check_status_invalid_path() {
    let runtime = create_test_runtime(RuntimeType::Docker, "/nonexistent/docker");
    // A path that does not exist cannot be started.
    let status = check_status(&runtime, &ProbeOutcome::SpawnFailed);
    assert_eq!(status, RuntimeStatus::Stopped);
}

#[test]
fn test_check_status_timeout() {
    let runtime = create_test_runtime(RuntimeType::Docker, "/nonexistent/path");
    assert_eq!(check_status(&runtime, &ProbeOutcome::TimedOut), RuntimeStatus::Unknown);
    assert_eq!(check_status(&runtime, &ProbeOutcome::SpawnFailed), RuntimeStatus::Stopped);
    assert_eq!(STATUS_CHECK_TIMEOUT_SECS, 3);
}

#[test]
fn probe_classification() {
    let ok = ProbeOutcome::Exited { success: true, stderr: "permission denied".to_string() };
    assert_eq!(classify_probe(&ok), RuntimeStatus::Running);
    let denied = ProbeOutcome::Exited {
        success: false,
        stderr: "Got permission denied while trying to connect".to_string(),
    };
    assert_eq!(classify_probe(&denied), RuntimeStatus::Error);
    assert_eq!(check_docker_status(&denied), RuntimeStatus::Error);
    assert_eq!(check_podman_status(&denied), RuntimeStatus::Error);
    let capital = ProbeOutcome::Exited { success: false, stderr: "Permission denied".to_string() };
    assert_eq!(classify_probe(&capital), RuntimeStatus::Stopped);
    let refused = ProbeOutcome::Exited {
        success: false,
        stderr: "Cannot connect to the Docker daemon".to_string(),
    };
    assert_eq!(classify_probe(&refused), RuntimeStatus::Stopped);
    let silent = ProbeOutcome::Exited { success: false, stderr: String::new() };
    assert_eq!(classify_probe(&silent), RuntimeStatus::Stopped);
    let short = ProbeOutcome::Exited { success: false, stderr: "permission denie".to_string() };
    assert_eq!(classify_probe(&short), RuntimeStatus::Stopped);
    let at_end = ProbeOutcome::Exited { success: false, stderr: "é permission denied".to_string() };
    assert_eq!(classify_probe(&at_end), RuntimeStatus::Error);
    assert_eq!(classify_probe(&ProbeOutcome::TaskFailed), RuntimeStatus::Stopped);
    assert_eq!(classify_probe(&ProbeOutcome::TimedOut), RuntimeStatus::Unknown);
    let podman = create_test_runtime(RuntimeType::Podman, "/usr/bin/podman");
    assert_eq!(check_status(&podman, &denied), RuntimeStatus::Error);
}

#[test]
fn locate_prefers_search_path() {
    let candidates = vec![dir_candidate("/usr/bin", "docker", true, false)];
    let hit = Some("/opt/bin/docker".to_string());
    assert_eq!(locate(hit.clone(), &candidates, "docker", Platform::Linux), hit);
    assert_eq!(
        find_docker_executable(None, &candidates, Platform::Linux),
        Some("/usr/bin/docker".to_string())
    );
}

#[test]
fn locate_takes_first_match() {
    let candidates = vec![
        dir_candidate("/usr/bin", "podman", false, true),
        dir_candidate("/usr/local/bin", "podman", true, false),
        dir_candidate("/usr/libexec/podman", "podman", true, false),
    ];
    assert_eq!(
        find_podman_executable(None, &candidates, Platform::Linux),
        Some("/usr/local/bin/podman".to_string())
    );
    // On Windows the first place already holds the .exe variant.
    assert_eq!(
        find_podman_executable(None, &candidates, Platform::Windows),
        Some("/usr/bin/podman.exe".to_string())
    );
    let none = vec![dir_candidate("/usr/bin", "podman", false, false)];
    assert_eq!(find_podman_executable(None, &none, Platform::Linux), None);
    assert_eq!(find_podman_executable(None, &vec![], Platform::Linux), None);
}

#[test]
fn candidate_that_is_the_file_itself() {
    let file = Candidate {
        path: "/opt/docker/docker.exe".to_string(),
        file_name: "docker.exe".to_string(),
        is_file: true,
        is_dir: false,
        inner: "/opt/docker/docker.exe/docker".to_string(),
        inner_is_file: false,
        inner_exe: "/opt/docker/docker.exe/docker.exe".to_string(),
        inner_exe_is_file: false,
    };
    assert_eq!(
        candidate_executable(&file, "docker", Platform::Linux),
        Some("/opt/docker/docker.exe".to_string())
    );
    assert_eq!(candidate_executable(&file, "podman", Platform::Linux), None);
    let missing = Candidate { is_file: false, ..file };
    assert_eq!(candidate_executable(&missing, "docker", Platform::Windows), None);
}

#[test]
fn version_observations() {
    match get_docker_version(exited(true, "  Docker version 24.0.7, build afdd53b\n")) {
        Observation::VersionOutput(Ok(text)) => {
            assert_eq!(text, "Docker version 24.0.7, build afdd53b")
        }
        other => panic!("unexpected {:?}", other),
    }
    match get_docker_version(exited(false, "whatever")) {
        Observation::VersionOutput(Err(why)) => assert_eq!(why, "Docker version command failed"),
        other => panic!("unexpected {:?}", other),
    }
    match get_podman_version(exited(false, "")) {
        Observation::VersionOutput(Err(why)) => assert_eq!(why, "Podman version command failed"),
        other => panic!("unexpected {:?}", other),
    }
    match get_podman_version(CommandOutcome::SpawnFailed("No such file".to_string())) {
        Observation::VersionOutput(Err(why)) => assert_eq!(why, "No such file"),
        other => panic!("unexpected {:?}", other),
    }
    let bad = CommandOutcome::Exited { success: true, stdout: Err("invalid utf-8".to_string()) };
    match version_observation(RuntimeType::Docker, bad) {
        Observation::VersionOutput(Err(why)) => assert_eq!(why, "invalid utf-8"),
        other => panic!("unexpected {:?}", other),
    }
    assert!(check_docker_running(&exited(true, "")));
    assert!(!check_docker_running(&exited(false, "")));
    assert!(!check_podman_running(&CommandOutcome::SpawnFailed("x".to_string())));
    assert!(check_podman_running(&exited(true, "")));
    assert!(matches!(running_observation(&exited(true, "")), Observation::Running(true)));
    assert!(matches!(
        running_observation(&CommandOutcome::SpawnFailed("x".to_string())),
        Observation::Running(false)
    ));
    assert!(matches!(mode_observation(exited(false, "false")), Observation::ModeOutput(None)));
    match mode_observation(exited(true, "false\n")) {
        Observation::ModeOutput(Some(text)) => assert_eq!(text, "false\n"),
        other => panic!("unexpected {:?}", other),
    }
}

fn run_docker(version_output: &str, running: bool) -> DetectionResult {
    let mut d = detect_docker(500, true);
    assert_eq!(d.stage(), Stage::Locate);
    assert_eq!(d.advance(Observation::Located(Some("/usr/bin/docker".to_string())), 1), Stage::Verify);
    assert_eq!(d.advance(Observation::Verified(true), 2), Stage::QueryVersion);
    let next = d.advance(Observation::VersionOutput(Ok(version_output.to_string())), 3);
    if next == Stage::Probe {
        assert_eq!(d.advance(Observation::Running(running), 4), Stage::Done);
    }
    assert!(d.is_done());
    d.finish(1_700_000_000_000, 5)
}

#[test]
fn docker_pipeline_finds_runtime() {
    let result = run_docker("Docker version 24.0.7, build afdd53b", true);
    assert_eq!(result.duration, 5);
    assert_eq!(result.detected_at, 1_700_000_000_000);
    assert!(result.errors.is_empty());
    assert_eq!(result.runtimes.len(), 1);
    let r = &result.runtimes[0];
    assert_eq!(r.id, "docker-/usr/bin/docker");
    assert_eq!(r.runtime_type, RuntimeType::Docker);
    assert_eq!(r.path, "/usr/bin/docker");
    assert_eq!(r.version.full, "24.0.7");
    assert_eq!(r.status, RuntimeStatus::Running);
    assert_eq!(r.last_checked, 1_700_000_000_000);
    assert_eq!(r.detected_at, 1_700_000_000_000);
    assert_eq!(r.mode, None);
    assert_eq!(r.is_wsl, None);
    assert_eq!(r.error, None);
    assert_eq!(r.version_warning, None);
}

#[test]
fn old_version_is_a_warning_not_a_failure() {
    let result = run_docker("Docker version 19.03.1", false);
    assert!(result.errors.is_empty());
    assert_eq!(result.runtimes.len(), 1);
    assert_eq!(result.runtimes[0].version_warning, Some(true));
    assert_eq!(result.runtimes[0].status, RuntimeStatus::Stopped);
    assert_eq!(result.runtimes[0].version.full, "19.3.1");
}

#[test]
fn unparseable_version_is_an_error() {
    let result = run_docker("Docker version unknown", true);
    assert!(result.runtimes.is_empty());
    assert_eq!(result.errors.len(), 1);
    assert_eq!(result.errors[0].runtime, RuntimeType::Docker);
    assert_eq!(result.errors[0].path, "/usr/bin/docker");
    assert_eq!(
        result.errors[0].error,
        "Failed to parse version: Could not parse version from: Docker version unknown"
    );
    let result = run_docker("Docker version 99999999999.0.0", true);
    assert_eq!(
        result.errors[0].error,
        "Failed to parse version: number too large to fit in target type"
    );
}

#[test]
fn failed_version_query_is_an_error() {
    let mut d = detect_docker(500, false);
    d.advance(Observation::Located(Some("/usr/bin/docker".to_string())), 1);
    d.advance(Observation::Verified(true), 2);
    let next = d.advance(get_docker_version(exited(false, "")), 3);
    assert_eq!(next, Stage::Done);
    let result = d.finish(0, 3);
    assert!(result.runtimes.is_empty());
    assert_eq!(result.errors.len(), 1);
    assert_eq!(result.errors[0].error, "Failed to get version: Docker version command failed");
}

#[test]
fn unusable_executable_is_an_error() {
    let mut d = detect_podman(500);
    d.advance(Observation::Located(Some("/usr/bin/podman".to_string())), 1);
    assert_eq!(d.advance(Observation::Verified(false), 2), Stage::Done);
    let result = d.finish(0, 2);
    assert!(result.runtimes.is_empty());
    assert_eq!(result.errors.len(), 1);
    assert_eq!(result.errors[0].runtime, RuntimeType::Podman);
    assert_eq!(result.errors[0].path, "/usr/bin/podman");
    assert_eq!(result.errors[0].error, "Executable lacks proper permissions");
}

#[test]
fn not_installed_is_silent() {
    let mut d = detect_podman(500);
    assert_eq!(d.advance(Observation::Located(None), 1), Stage::Done);
    let result = d.finish(9, 1);
    assert!(result.runtimes.is_empty());
    assert!(result.errors.is_empty());
    assert_eq!(result.detected_at, 9);

    // Docker on Linux looks at the Windows side before giving up.
    let mut d = detect_docker(500, true);
    assert_eq!(d.advance(Observation::Located(None), 1), Stage::LocateWsl);
    assert_eq!(d.advance(Observation::Located(None), 2), Stage::Done);
    let result = d.finish(0, 2);
    assert!(result.runtimes.is_empty());
    assert!(result.errors.is_empty());

    // Elsewhere it does not.
    let mut d = detect_docker(500, false);
    assert_eq!(d.advance(Observation::Located(None), 1), Stage::Done);
}

#[test]
fn wsl_docker_is_marked() {
    let mut d = detect_docker(500, true);
    d.advance(Observation::Located(None), 1);
    let exe = "/mnt/c/Program Files/Docker/Docker/resources/bin/docker.exe";
    assert_eq!(d.advance(Observation::Located(Some(exe.to_string())), 2), Stage::Verify);
    assert_eq!(d.path(), Some(exe.to_string()));
    d.advance(Observation::Verified(true), 3);
    d.advance(Observation::VersionOutput(Ok("Docker version 25.0.1".to_string())), 4);
    d.advance(Observation::Running(true), 5);
    let result = d.finish(0, 5);
    assert_eq!(result.runtimes.len(), 1);
    assert_eq!(result.runtimes[0].is_wsl, Some(true));
    assert_eq!(result.runtimes[0].id, format!("docker-{}", exe));
}

#[test]
fn timeout_is_checked_at_every_stage() {
    // After locating.
    let mut d = detect_docker(500, false);
    assert_eq!(
        d.advance(Observation::Located(Some("/usr/bin/docker".to_string())), 501),
        Stage::Done
    );
    let result = d.finish(0, 501);
    assert!(result.runtimes.is_empty());
    assert_eq!(result.errors.len(), 1);
    assert_eq!(result.errors[0].error, "Detection timeout exceeded");
    assert_eq!(result.errors[0].path, "/usr/bin/docker");

    // Exactly at the budget the detection goes on.
    let mut d = detect_docker(500, false);
    assert_eq!(
        d.advance(Observation::Located(Some("/usr/bin/docker".to_string())), 500),
        Stage::Verify
    );
    // After verifying.
    assert_eq!(d.advance(Observation::Verified(true), 600), Stage::Done);
    assert_eq!(d.finish(0, 600).errors[0].error, "Detection timeout exceeded");

    // After the version query.
    let mut d = detect_docker(500, false);
    d.advance(Observation::Located(Some("/usr/bin/docker".to_string())), 1);
    d.advance(Observation::Verified(true), 2);
    assert_eq!(
        d.advance(Observation::VersionOutput(Ok("Docker version 24.0.7".to_string())), 9999),
        Stage::Done
    );
    let result = d.finish(0, 9999);
    assert!(result.runtimes.is_empty());
    assert_eq!(result.errors[0].error, "Detection timeout exceeded");

    // After the probe.
    let mut d = detect_podman(10);
    d.advance(Observation::Located(Some("/usr/bin/podman".to_string())), 1);
    d.advance(Observation::Verified(true), 2);
    d.advance(Observation::VersionOutput(Ok("podman version 4.8.0".to_string())), 3);
    assert_eq!(d.advance(Observation::Running(true), 11), Stage::Done);
    assert_eq!(d.finish(0, 11).errors[0].error, "Detection timeout exceeded");

    // Not located and out of time: still silent, and no look at the Windows side.
    let mut d = detect_docker(500, true);
    assert_eq!(d.advance(Observation::Located(None), 501), Stage::Done);
    let result = d.finish(0, 501);
    assert!(result.runtimes.is_empty());
    assert!(result.errors.is_empty());
}

#[test]
fn podman_pipeline_asks_for_mode() {
    let mut d = Detection::new(RuntimeType::Podman, 500, true);
    assert_eq!(d.kind(), RuntimeType::Podman);
    d.advance(Observation::Located(Some("/usr/bin/podman".to_string())), 1);
    d.advance(Observation::Verified(true), 2);
    assert_eq!(
        d.advance(get_podman_version(exited(true, "podman version 2.9.9\n")), 3),
        Stage::Probe
    );
    assert_eq!(d.advance(Observation::Running(false), 4), Stage::QueryMode);
    assert_eq!(d.advance(mode_observation(exited(true, "false\n")), 5), Stage::Done);
    let result = d.finish(77, 5);
    assert_eq!(result.runtimes.len(), 1);
    let r = &result.runtimes[0];
    assert_eq!(r.id, "podman-/usr/bin/podman");
    assert_eq!(r.runtime_type, RuntimeType::Podman);
    assert_eq!(r.mode, Some(PodmanMode::Rootful));
    assert_eq!(r.status, RuntimeStatus::Stopped);
    assert_eq!(r.version_warning, Some(true));
    assert_eq!(r.is_wsl, None);
}

#[test]
fn unexpected_observations_are_ignored() {
    let mut d = detect_docker(500, false);
    assert_eq!(d.advance(Observation::Verified(true), 1), Stage::Locate);
    assert_eq!(d.advance(Observation::Running(true), 9999), Stage::Locate);
    d.advance(Observation::Located(Some("/usr/bin/docker".to_string())), 1);
    assert_eq!(d.advance(Observation::Located(None), 1), Stage::Verify);
    // An unfinished detection gives nothing.
    let result = d.finish(0, 0);
    assert!(result.runtimes.is_empty());
    assert!(result.errors.is_empty());
    d.advance(Observation::Verified(false), 1);
    assert_eq!(d.advance(Observation::Verified(true), 1), Stage::Done);
    assert_eq!(d.finish(0, 0).errors.len(), 1);
}

#[test]
fn detector_serves_from_cache() {
    let mut detector = RuntimeDetector::new(60, 500);
    let now = detector.now();
    let detection = match detector.begin_at(RuntimeType::Docker, false, now) {
        DetectionPlan::Run(detection) => detection,
        DetectionPlan::Cached(_) => panic!("nothing was cached yet"),
    };
    let mut detection = detection;
    detection.advance(Observation::Located(Some("/usr/bin/docker".to_string())), 1);
    detection.advance(Observation::Verified(true), 2);
    detection.advance(Observation::VersionOutput(Ok("Docker version 24.0.7".to_string())), 3);
    detection.advance(Observation::Running(true), 4);
    let first = detector.complete_at(&detection, 1234, 4, now);
    assert_eq!(first.runtimes.len(), 1);
    assert_eq!(first.detected_at, 1234);

    match detector.begin_at(RuntimeType::Docker, false, now + 59_999) {
        DetectionPlan::Cached(result) => {
            assert_eq!(result.runtimes.len(), first.runtimes.len());
            assert_eq!(result.runtimes[0].id, "docker-/usr/bin/docker");
            assert_eq!(result.detected_at, 1234);
            assert_eq!(result.duration, 4);
        }
        DetectionPlan::Run(_) => panic!("the result should be cached"),
    }
    // Podman is detected on its own.
    assert!(matches!(detector.begin_at(RuntimeType::Podman, false, now), DetectionPlan::Run(_)));
    // Past the time to live the pipeline runs again.
    assert!(matches!(
        detector.begin_at(RuntimeType::Docker, false, now + 60_000),
        DetectionPlan::Run(_)
    ));
    // So it does after a clear.
    detector.clear_cache(&RuntimeType::Docker);
    assert!(matches!(detector.begin_at(RuntimeType::Docker, false, now), DetectionPlan::Run(_)));
}

#[test]
fn detector_with_its_own_clock() {
    let mut detector = RuntimeDetector::new(3600, 250);
    assert_eq!(detector.detection_timeout(), 250);
    let mut detection = match detector.detect_podman() {
        DetectionPlan::Run(detection) => detection,
        DetectionPlan::Cached(_) => panic!("nothing was cached yet"),
    };
    detection.advance(Observation::Located(None), 1);
    let result = detector.complete(&detection, 1);
    assert!(result.runtimes.is_empty());
    assert!(result.detected_at > 1_577_836_800_000);
    assert!(matches!(detector.detect_podman(), DetectionPlan::Cached(_)));
    assert!(matches!(detector.detect_docker(true), DetectionPlan::Run(_)));
    detector.clear_all_caches();
    assert!(matches!(detector.detect_podman(), DetectionPlan::Run(_)));
}

#[test]
fn detect_all_keeps_each_engine() {
    // Docker fails, Podman is found: Podman's runtime is in the list.
    let mut docker = detect_docker(500, false);
    docker.advance(Observation::Located(Some("/usr/bin/docker".to_string())), 1);
    docker.advance(Observation::Verified(false), 2);
    let docker_result = docker.finish(0, 2);
    assert_eq!(docker_result.errors.len(), 1);

    let mut podman = detect_podman(500);
    podman.advance(Observation::Located(Some("/usr/bin/podman".to_string())), 1);
    podman.advance(Observation::Verified(true), 2);
    podman.advance(Observation::VersionOutput(Ok("podman version 4.8.0".to_string())), 3);
    podman.advance(Observation::Running(true), 4);
    podman.advance(Observation::ModeOutput(Some("true".to_string())), 5);
    let podman_result = podman.finish(0, 5);

    let all = RuntimeDetector::detect_all(&docker_result, &podman_result);
    assert_eq!(all.len(), 1);
    assert_eq!(all[0].id, "podman-/usr/bin/podman");
    assert_eq!(all[0].mode, Some(PodmanMode::Rootless));

    let both = RuntimeDetector::detect_all(&run_docker("24.0.7", true), &podman_result);
    assert_eq!(both.len(), 2);
    assert_eq!(both[0].runtime_type, RuntimeType::Docker);
    assert_eq!(both[1].runtime_type, RuntimeType::Podman);

    let summary = harbor_master::commands::detect_runtimes(both, 5);
    assert_eq!(summary.runtimes.len(), 2);
    assert_eq!(summary.duration, 0);
    assert_eq!(summary.detected_at, 5);
    assert!(summary.errors.is_empty());
}

#[test]
fn runtime_type_names() {
    assert_eq!(RuntimeType::Docker.to_string(), "Docker");
    assert_eq!(RuntimeType::Podman.to_string(), "Podman");
    assert_eq!(RuntimeType::Docker.id_prefix(), "docker");
    assert_eq!(RuntimeType::Podman.id_prefix(), "podman");
}
