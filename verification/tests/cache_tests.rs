use harbor_master::runtime::cache::DetectionCache;
use harbor_master::types::{DetectionError, DetectionResult, RuntimeType};

fn sample_result(duration: u64) -> DetectionResult {
    DetectionResult { runtimes: vec![], detected_at: 1_700_000_000_000, duration, errors: vec![] }
}

#[test]
fn test_cache_get_set() {
    let mut cache = DetectionCache::new(60);
    let result = DetectionResult {
        runtimes: vec![],
        detected_at: 1_700_000_000_000,
        duration: 100,
        errors: vec![],
    };

    cache.set(RuntimeType::Docker, result.clone());
    let cached = cache.get(&RuntimeType::Docker);

    assert!(cached.is_some());
}

#[test]
fn test_cache_expiration() {
    let mut cache = DetectionCache::new(1); // 1 second TTL
    let result = DetectionResult {
        runtimes: vec![],
        detected_at: 1_700_000_000_000,
        duration: 100,
        errors: vec![],
    };

    let stored = cache.now();
    cache.set_at(RuntimeType::Docker, result, stored);

    // Should be cached
    assert!(cache.get_at(&RuntimeType::Docker, stored).is_some());

    // Two seconds later it should be expired
    assert!(cache.get_at(&RuntimeType::Docker, stored + 2000).is_none());
}

#[test]
fn test_cache_clear() {
    let mut cache = DetectionCache::new(60);
    let result = DetectionResult {
        runtimes: vec![],
        detected_at: 1_700_000_000_000,
        duration: 100,
        errors: vec![],
    };

    cache.set(RuntimeType::Docker, result);
    cache.clear(&RuntimeType::Docker);

    assert!(cache.get(&RuntimeType::Docker).is_none());
}

#[test]
fn cache_round_trip_returns_equal_result() {
    let mut cache = DetectionCache::new(60);
    let mut result = sample_result(7);
    result.errors.push(DetectionError {
        runtime: RuntimeType::Docker,
        path: "/usr/bin/docker".to_string(),
        error: "Executable lacks proper permissions".to_string(),
    });
    cache.set_at(RuntimeType::Docker, result.clone(), 1000);
    let back = cache.get_at(&RuntimeType::Docker, 1000).unwrap();
    assert_eq!(back.duration, 7);
    assert_eq!(back.detected_at, 1_700_000_000_000);
    assert_eq!(back.errors.len(), 1);
    assert_eq!(back.errors[0].path, "/usr/bin/docker");
    assert_eq!(back.errors[0].error, "Executable lacks proper permissions");
    assert!(back.runtimes.is_empty());
}

#[test]
fn cache_expiry_is_strict() {
    let mut cache = DetectionCache::new(60);
    cache.set_at(RuntimeType::Podman, sample_result(1), 5_000);
    assert!(cache.get_at(&RuntimeType::Podman, 5_000).is_some());
    assert!(cache.get_at(&RuntimeType::Podman, 64_999).is_some());
    assert!(cache.get_at(&RuntimeType::Podman, 65_000).is_none());
    assert!(cache.get_at(&RuntimeType::Podman, 65_001).is_none());
    // Reading never removes: an earlier time still sees the entry.
    assert!(cache.get_at(&RuntimeType::Podman, 6_000).is_some());
}

#[test]
fn cache_zero_ttl_never_serves() {
    let mut cache = DetectionCache::new(0);
    assert_eq!(cache.ttl_seconds(), 0);
    cache.set_at(RuntimeType::Docker, sample_result(1), 10);
    assert!(cache.get_at(&RuntimeType::Docker, 10).is_none());
}

#[test]
fn cache_clear_all_empties_everything() {
    let mut cache = DetectionCache::new(3600);
    cache.set_at(RuntimeType::Docker, sample_result(1), 0);
    cache.set_at(RuntimeType::Podman, sample_result(2), 0);
    cache.clear_all();
    assert!(cache.get_at(&RuntimeType::Docker, 0).is_none());
    assert!(cache.get_at(&RuntimeType::Podman, 0).is_none());
    assert!(cache.get(&RuntimeType::Docker).is_none());
    assert!(cache.get(&RuntimeType::Podman).is_none());
}

#[test]
fn cache_kinds_are_independent() {
    let mut cache = DetectionCache::new(60);
    cache.set_at(RuntimeType::Docker, sample_result(1), 0);
    assert!(cache.get_at(&RuntimeType::Podman, 0).is_none());
    cache.set_at(RuntimeType::Podman, sample_result(2), 0);
    cache.clear(&RuntimeType::Docker);
    assert!(cache.get_at(&RuntimeType::Docker, 0).is_none());
    assert_eq!(cache.get_at(&RuntimeType::Podman, 0).unwrap().duration, 2);
    // Overwriting replaces the entry and restarts its life.
    cache.set_at(RuntimeType::Podman, sample_result(3), 100_000);
    assert_eq!(cache.get_at(&RuntimeType::Podman, 150_000).unwrap().duration, 3);
}

#[test]
fn cache_large_ttl_does_not_overflow() {
    let mut cache = DetectionCache::new(u64::MAX);
    cache.set_at(RuntimeType::Docker, sample_result(1), u128::MAX - 5);
    assert!(cache.get_at(&RuntimeType::Docker, u128::MAX).is_some());
    assert!(cache.get_at(&RuntimeType::Docker, 0).is_some());
}

#[test]
fn cache_read_with_its_own_clock() {
    let mut cache = DetectionCache::new(1);
    // Nothing stored: nothing comes back.
    assert!(cache.get(&RuntimeType::Docker).is_none());
    // An entry that expires later than the clock can ever say comes back.
    cache.set_at(RuntimeType::Docker, sample_result(9), u128::MAX);
    assert_eq!(cache.get(&RuntimeType::Docker).unwrap().duration, 9);
    assert!(cache.get(&RuntimeType::Podman).is_none());
}
