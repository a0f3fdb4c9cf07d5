//! Detection with a cache in front of it.
//!
//! A detection of one engine first asks the cache. Only on a miss is the
//! pipeline run, and its result is written back before it is handed out.
//! The engines are detected independently of each other, and what they
//! found is put together at the end.

use crate::clock::utc_now_millis;
use crate::runtime::cache::{CacheEntryView, DetectionCache, DetectionCacheView};
use crate::runtime::detection::{Detection, DetectionView};
use crate::types::{
    runtime_views, DetectionResult, DetectionResultView, Runtime, RuntimeType, RuntimeView,
};
use vstd::prelude::*;

verus! {

/// What is to be done for a detection that was asked for.
pub enum DetectionPlan {
    /// The cache holds a fresh result: nothing is to be run.
    Cached(DetectionResult),
    /// The pipeline is to be run, from this start.
    Run(Detection),
}

/// The mathematical content of a [`RuntimeDetector`].
pub struct RuntimeDetectorView {
    pub cache: DetectionCacheView,
    /// The time budget of one detection, in milliseconds.
    pub detection_timeout: nat,
}

/// The runtimes of two results, those of the first before those of the
/// second.
pub open spec fn combined_runtimes(
    first: DetectionResultView,
    second: DetectionResultView,
) -> Seq<RuntimeView> {
    first.runtimes + second.runtimes
}

/// Detects runtimes and remembers what it found.
pub struct RuntimeDetector {
    cache: DetectionCache,
    detection_timeout: u64,
}

impl View for RuntimeDetector {
    type V = RuntimeDetectorView;

    closed spec fn view(&self) -> RuntimeDetectorView {
        RuntimeDetectorView {
            cache: self.cache@,
            detection_timeout: self.detection_timeout as nat,
        }
    }
}

impl RuntimeDetector {
    /// A detector with an empty cache whose entries live for `cache_ttl`
    /// seconds, and a budget of `detection_timeout` milliseconds for each
    /// detection.
    pub fn new(cache_ttl: u64, detection_timeout: u64) -> (detector: Self)
        ensures
            detector@.cache.ttl_seconds == cache_ttl,
            detector@.cache.entries == Map::<RuntimeType, CacheEntryView>::empty(),
            detector@.detection_timeout == detection_timeout,
    {
        RuntimeDetector { cache: DetectionCache::new(cache_ttl), detection_timeout }
    }

    /// The time budget of one detection, in milliseconds.
    pub fn detection_timeout(&self) -> (ms: u64)
        ensures
            ms == self@.detection_timeout,
    {
        self.detection_timeout
    }

    /// The present time on the clock of the cache, in milliseconds.
    pub fn now(&self) -> (ms: u128) {
        self.cache.now()
    }

    /// What is to be done to detect `kind` at the cache time `now`: the
    /// cached result if it is still fresh, a new run of the pipeline if
    /// not.
    pub fn begin_at(&self, kind: RuntimeType, on_linux: bool, now: u128) -> (plan: DetectionPlan)
        ensures
            match plan {
                DetectionPlan::Cached(result) => self@.cache.lookup(kind, now as nat) == Some(
                    result@,
                ),
                DetectionPlan::Run(detection) => self@.cache.lookup(kind, now as nat) is None
                    && detection@ == DetectionView::initial(
                    kind,
                    self@.detection_timeout,
                    on_linux,
                ),
            },
    {
        match self.cache.get_at(&kind, now) {
            Some(result) => DetectionPlan::Cached(result),
            None => DetectionPlan::Run(Detection::new(kind, self.detection_timeout, on_linux)),
        }
    }

    /// What is to be done to detect `kind` now.
    ///
    /// Whatever the clock says, a result that is handed out is the one
    /// that the cache holds for `kind`, and a run starts from the
    /// beginning with this detector's budget.
    pub fn begin(&self, kind: RuntimeType, on_linux: bool) -> (plan: DetectionPlan)
        ensures
            match plan {
                DetectionPlan::Cached(result) => self@.cache.entries.contains_key(kind)
                    && self@.cache.entries[kind].result == result@,
                DetectionPlan::Run(detection) => detection@ == DetectionView::initial(
                    kind,
                    self@.detection_timeout,
                    on_linux,
                ),
            },
    {
        let now = self.now();
        self.begin_at(kind, on_linux, now)
    }

    /// What is to be done to detect Docker now.
    pub fn detect_docker(&self, on_linux: bool) -> (plan: DetectionPlan)
        ensures
            match plan {
                DetectionPlan::Cached(result) => self@.cache.entries.contains_key(
                    RuntimeType::Docker,
                ) && self@.cache.entries[RuntimeType::Docker].result == result@,
                DetectionPlan::Run(detection) => detection@ == DetectionView::initial(
                    RuntimeType::Docker,
                    self@.detection_timeout,
                    on_linux,
                ),
            },
    {
        self.begin(RuntimeType::Docker, on_linux)
    }

    /// What is to be done to detect Podman now.
    pub fn detect_podman(&self) -> (plan: DetectionPlan)
        ensures
            match plan {
                DetectionPlan::Cached(result) => self@.cache.entries.contains_key(
                    RuntimeType::Podman,
                ) && self@.cache.entries[RuntimeType::Podman].result == result@,
                DetectionPlan::Run(detection) => detection@ == DetectionView::initial(
                    RuntimeType::Podman,
                    self@.detection_timeout,
                    false,
                ),
            },
    {
        self.begin(RuntimeType::Podman, false)
    }

    /// Takes the result of a detection that was run, stamps it with the
    /// wall time `wall_now` and the duration `duration_ms`, writes it to
    /// the cache as of the cache time `now`, and hands it out.
    pub fn complete_at(
        &mut self,
        detection: &Detection,
        wall_now: i64,
        duration_ms: u64,
        now: u128,
    ) -> (result: DetectionResult)
        ensures
            result@ == detection@.result(wall_now as int, duration_ms as nat),
            final(self)@.detection_timeout == old(self)@.detection_timeout,
            final(self)@.cache == old(self)@.cache.store(detection@.kind, result@, now as nat),
    {
        let result = detection.finish(wall_now, duration_ms);
        self.cache.set_at(detection.kind(), result.duplicate(), now);
        result
    }

    /// Takes the result of a detection that was run, stamps it with the
    /// present time, writes it to the cache and hands it out.
    ///
    /// Whatever the clocks say, the cache afterwards holds the result that
    /// is handed out.
    pub fn complete(&mut self, detection: &Detection, duration_ms: u64) -> (result:
        DetectionResult)
        ensures
            result@ == detection@.result(result.detected_at as int, duration_ms as nat),
            final(self)@.detection_timeout == old(self)@.detection_timeout,
            final(self)@.cache.entries.contains_key(detection@.kind),
            final(self)@.cache == old(self)@.cache.store(
                detection@.kind,
                result@,
                final(self)@.cache.entries[detection@.kind].stored_at,
            ),
    {
        let wall_now = utc_now_millis();
        let now = self.now();
        self.complete_at(detection, wall_now, duration_ms, now)
    }

    /// The runtimes of both engines, Docker's first.
    ///
    /// Only the runtimes are taken: the errors of one engine keep nothing
    /// of the other engine out.
    pub fn detect_all(docker: &DetectionResult, podman: &DetectionResult) -> (all: Vec<Runtime>)
        ensures
            runtime_views(all@) == combined_runtimes(docker@, podman@),
    {
        let mut all: Vec<Runtime> = Vec::new();
        let mut i: usize = 0;
        while i < docker.runtimes.len()
            invariant
                i <= docker.runtimes.len(),
                all.len() == i,
                forall|k: int| 0 <= k < i ==> (#[trigger] all@[k])@ == docker.runtimes@[k]@,
            decreases docker.runtimes.len() - i,
        {
            all.push(docker.runtimes[i].duplicate());
            i += 1;
        }
        let mut j: usize = 0;
        while j < podman.runtimes.len()
            invariant
                j <= podman.runtimes.len(),
                all.len() == docker.runtimes.len() + j,
                forall|k: int|
                    0 <= k < docker.runtimes.len() ==> (#[trigger] all@[k])@
                        == docker.runtimes@[k]@,
                forall|k: int|
                    0 <= k < j ==> (#[trigger] all@[docker.runtimes.len() + k])@
                        == podman.runtimes@[k]@,
            decreases podman.runtimes.len() - j,
        {
            all.push(podman.runtimes[j].duplicate());
            j += 1;
        }
        proof {
            let wanted = combined_runtimes(docker@, podman@);
            let first = docker.runtimes.len() as int;
            assert forall|k: int| 0 <= k < all.len() implies runtime_views(all@)[k]
                == wanted[k] by {
                if k < first {
                    assert(all@[k]@ == docker.runtimes@[k]@);
                } else {
                    let m = k - first;
                    assert(all@[first + m]@ == podman.runtimes@[m]@);
                }
            }
            assert(runtime_views(all@) =~= wanted);
        }
        all
    }

    /// Forgets what is cached for `runtime_type`.
    pub fn clear_cache(&mut self, runtime_type: &RuntimeType)
        ensures
            final(self)@.detection_timeout == old(self)@.detection_timeout,
            final(self)@.cache == old(self)@.cache.remove(*runtime_type),
    {
        self.cache.clear(runtime_type);
    }

    /// Forgets every cached result, so that the next detection of either
    /// engine runs the pipeline.
    pub fn clear_all_caches(&mut self)
        ensures
            final(self)@.detection_timeout == old(self)@.detection_timeout,
            final(self)@.cache == old(self)@.cache.remove_all(),
    {
        self.cache.clear_all();
    }
}

/// What one engine found is in the combined list whatever happened to the
/// other engine: every runtime of either result is there, in its place,
/// and the errors of a result keep nothing out.
pub proof fn lemma_combined_keeps_each(first: DetectionResultView, second: DetectionResultView)
    ensures
        combined_runtimes(first, second).len() == first.runtimes.len() + second.runtimes.len(),
        forall|i: int|
            0 <= i < first.runtimes.len() ==> combined_runtimes(first, second)[i]
                == #[trigger] first.runtimes[i],
        forall|i: int|
            0 <= i < second.runtimes.len() ==> combined_runtimes(first, second)[first.runtimes.len()
                + i] == #[trigger] second.runtimes[i],
        forall|r: RuntimeView| #[trigger]
            second.runtimes.contains(r) ==> combined_runtimes(first, second).contains(r),
        forall|r: RuntimeView| #[trigger]
            first.runtimes.contains(r) ==> combined_runtimes(first, second).contains(r),
{
    let all = combined_runtimes(first, second);
    assert forall|r: RuntimeView| #[trigger] second.runtimes.contains(r) implies all.contains(
        r,
    ) by {
        let i = choose|i: int| 0 <= i < second.runtimes.len() && second.runtimes[i] == r;
        assert(all[first.runtimes.len() + i] == r);
    }
    assert forall|r: RuntimeView| #[trigger] first.runtimes.contains(r) implies all.contains(
        r,
    ) by {
        let i = choose|i: int| 0 <= i < first.runtimes.len() && first.runtimes[i] == r;
        assert(all[i] == r);
    }
}

/// The combined list does not depend on the errors of either engine: a
/// failed detection of one engine changes nothing of what the other
/// contributes.
pub proof fn lemma_combined_ignores_errors(
    first: DetectionResultView,
    first_failed: DetectionResultView,
    second: DetectionResultView,
)
    requires
        first_failed.runtimes == first.runtimes,
    ensures
        combined_runtimes(first_failed, second) == combined_runtimes(first, second),
{
}

} // verus!
