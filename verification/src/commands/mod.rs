//! The operations that the application calls.

use crate::polling::service::PollingService;
use crate::runtime::cache::CacheEntryView;
use crate::runtime::detector::RuntimeDetector;
use crate::types::{
    error_views, runtime_views, DetectionErrorView, DetectionResult, Runtime, RuntimePreferences,
    RuntimeType,
};
use vstd::prelude::*;

verus! {

/// Seconds for which the shared detector keeps a detection result.
pub const DETECTOR_CACHE_TTL: u64 = 60;

/// Milliseconds that the shared detector gives one detection.
pub const DETECTOR_TIMEOUT_MS: u64 = 500;

/// Seconds between two ticks of the shared polling service.
pub const POLL_INTERVAL_SECS: u64 = 5;

/// The detector that the application shares: made once at start, with an
/// empty cache, and handed to whoever detects.
pub fn init_detector() -> (detector: RuntimeDetector)
    ensures
        detector@.cache.ttl_seconds == DETECTOR_CACHE_TTL,
        detector@.cache.entries == Map::<RuntimeType, CacheEntryView>::empty(),
        detector@.detection_timeout == DETECTOR_TIMEOUT_MS,
{
    RuntimeDetector::new(DETECTOR_CACHE_TTL, DETECTOR_TIMEOUT_MS)
}

/// The polling service that the application shares: stopped, without
/// runtimes, ticking every five seconds once started.
pub fn init_polling_service() -> (service: PollingService)
    ensures
        !service@.running,
        service@.runtimes.len() == 0,
        service@.interval_secs == POLL_INTERVAL_SECS,
{
    PollingService::new(POLL_INTERVAL_SECS)
}

/// The result that is reported for a detection of all engines: the
/// runtimes that were found, stamped with the time `now`, with no duration
/// and no errors of its own.
pub fn detect_runtimes(all_runtimes: Vec<Runtime>, now: i64) -> (result: DetectionResult)
    ensures
        result@.runtimes == runtime_views(all_runtimes@),
        result@.detected_at == now,
        result@.duration == 0,
        result@.errors == Seq::<DetectionErrorView>::empty(),
{
    let result = DetectionResult {
        runtimes: all_runtimes,
        detected_at: now,
        duration: 0,
        errors: Vec::new(),
    };
    assert(result@.errors =~= Seq::<DetectionErrorView>::empty());
    result
}

/// Notes in the preferences that the runtime `runtime_id` was chosen.
pub fn select_runtime(prefs: &mut RuntimePreferences, runtime_id: String)
    ensures
        final(prefs).selected_runtime_id == Some(runtime_id),
        final(prefs).auto_select_running == old(prefs).auto_select_running,
        final(prefs).preferred_type == old(prefs).preferred_type,
        final(prefs).detection_cache_ttl == old(prefs).detection_cache_ttl,
        final(prefs).status_poll_interval == old(prefs).status_poll_interval,
{
    prefs.selected_runtime_id = Some(runtime_id);
}

} // verus!
