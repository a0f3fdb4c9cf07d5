use harbor_master::commands::{init_detector, init_polling_service, select_runtime};
use harbor_master::polling::service::{PollingService, MAX_FAILURE_COUNT};
use harbor_master::types::{
    Runtime, RuntimePreferences, RuntimeStatus, RuntimeType, Version,
};

fn create_test_runtime(id: &str) -> Runtime {
    Runtime {
        id: id.to_string(),
        runtime_type: RuntimeType::Docker,
        path: "/usr/bin/docker".to_string(),
        version: Version {
            major: 24,
            minor: 0,
            patch: 7,
            full: "24.0.7".to_string(),
        },
        status: RuntimeStatus::Unknown,
        last_checked: 1_700_000_000_000,
        detected_at: 1_700_000_000_000,
        mode: None,
        is_wsl: None,
        error: None,
        version_warning: None,
    }
}

#[test]
fn test_default_preferences() {
    let prefs = RuntimePreferences::default();
    assert!(prefs.auto_select_running);
    assert_eq!(prefs.detection_cache_ttl, 60);
    assert_eq!(prefs.status_poll_interval, 5);
}

#[test]
fn test_service_creation() {
    let service = PollingService::new(5);
    assert!(!service.is_running());
}

#[test]
fn test_set_runtimes() {
    let mut service = PollingService::new(5);
    let runtimes = vec![create_test_runtime("test1"), create_test_runtime("test2")];

    service.set_runtimes(runtimes.clone());

    let stored = service.runtimes();
    assert_eq!(stored.len(), 2);
    assert_eq!(stored[0].id, "test1");
    assert_eq!(stored[1].id, "test2");
}

#[test]
fn default_preferences_in_full() {
    let prefs = RuntimePreferences::default();
    assert!(prefs.selected_runtime_id.is_none());
    assert_eq!(prefs.preferred_type, Some(RuntimeType::Docker));
}

#[test]
fn select_runtime_sets_only_the_choice() {
    let mut prefs = RuntimePreferences::default();
    select_runtime(&mut prefs, "docker-/usr/bin/docker".to_string());
    assert_eq!(prefs.selected_runtime_id, Some("docker-/usr/bin/docker".to_string()));
    assert!(prefs.auto_select_running);
    assert_eq!(prefs.detection_cache_ttl, 60);
    assert_eq!(prefs.status_poll_interval, 5);
}

#[test]
fn shared_objects_have_default_settings() {
    let detector = init_detector();
    assert_eq!(detector.detection_timeout(), 500);
    let service = init_polling_service();
    assert_eq!(service.interval_secs(), 5);
    assert!(!service.is_running());
    assert!(service.runtimes().is_empty());
}

#[test]
fn start_is_guarded() {
    let mut service = PollingService::new(5);
    assert!(service.start().is_ok());
    assert!(service.is_running());
    let second = service.start();
    assert_eq!(second, Err("Polling service already running".to_string()));
    assert!(service.is_running());
    service.stop();
    assert!(!service.is_running());
    assert!(service.start().is_ok());
}

#[test]
fn stop_on_stopped_service_is_harmless() {
    let mut service = PollingService::new(1);
    service.stop();
    assert!(!service.is_running());
}

#[test]
fn failure_count_saturates_at_five() {
    let mut service = PollingService::new(5);
    assert_eq!(service.failure_count("r"), 0);
    for n in 1..=20u32 {
        let status = if n % 2 == 0 { RuntimeStatus::Error } else { RuntimeStatus::Unknown };
        service.record_status_at("r", status, 0);
        assert_eq!(service.failure_count("r"), n.min(5));
        assert!(service.failure_count("r") <= MAX_FAILURE_COUNT);
    }
    assert_eq!(service.failure_count("other"), 0);
}

#[test]
fn success_clears_failure_count() {
    let mut service = PollingService::new(5);
    service.record_status_at("r", RuntimeStatus::Error, 0);
    service.record_status_at("r", RuntimeStatus::Error, 0);
    service.record_status_at("q", RuntimeStatus::Unknown, 0);
    assert_eq!(service.failure_count("r"), 2);
    service.record_status_at("r", RuntimeStatus::Stopped, 0);
    assert_eq!(service.failure_count("r"), 0);
    assert_eq!(service.failure_count("q"), 1);
    service.record_status_at("q", RuntimeStatus::Running, 0);
    assert_eq!(service.failure_count("q"), 0);
}

#[test]
fn record_status_builds_the_update() {
    let mut service = PollingService::new(5);
    let update = service.record_status_at("docker-/usr/bin/docker", RuntimeStatus::Running, 42);
    assert_eq!(update.runtime_id, "docker-/usr/bin/docker");
    assert_eq!(update.status, RuntimeStatus::Running);
    assert_eq!(update.timestamp, 42);
    assert!(update.error.is_none());

    let update = service.record_status("docker-/usr/bin/docker", RuntimeStatus::Unknown);
    assert_eq!(update.runtime_id, "docker-/usr/bin/docker");
    assert_eq!(update.status, RuntimeStatus::Unknown);
    assert!(update.error.is_none());
    // Some time after 2020.
    assert!(update.timestamp > 1_577_836_800_000);
    assert_eq!(service.failure_count("docker-/usr/bin/docker"), 1);
}

#[test]
fn skip_follows_backoff_factor() {
    let mut service = PollingService::new(5);
    // No failures: never skipped.
    for draw in [0u32, 1, 2, 3, 31, 32, u32::MAX] {
        assert!(!service.should_skip_with("r", draw));
    }
    assert!(!service.should_skip("r"));
    // n failures: probed only when 2^n divides the draw.
    let mut factor = 1u32;
    for _ in 1..=5 {
        service.record_status_at("r", RuntimeStatus::Error, 0);
        factor *= 2;
        for draw in [0u32, 1, 2, 3, 4, 8, 16, 31, 32, 33, 64, 96, u32::MAX] {
            assert_eq!(service.should_skip_with("r", draw), draw % factor != 0);
        }
    }
    // Beyond five failures the factor stays at 32.
    service.record_status_at("r", RuntimeStatus::Error, 0);
    assert!(!service.should_skip_with("r", 32));
    assert!(service.should_skip_with("r", 16));
    assert!(!service.should_skip_with("r", 64));
}

#[test]
fn set_runtimes_replaces_wholesale() {
    let mut service = PollingService::new(5);
    service.set_runtimes(vec![create_test_runtime("a"), create_test_runtime("b")]);
    service.record_status_at("a", RuntimeStatus::Error, 0);
    service.start().unwrap();
    service.set_runtimes(vec![create_test_runtime("c")]);
    let held = service.runtimes();
    assert_eq!(held.len(), 1);
    assert_eq!(held[0].id, "c");
    assert!(service.is_running());
    assert_eq!(service.failure_count("a"), 1);
}
