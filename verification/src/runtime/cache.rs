//! Detection results kept for a limited time.
//!
//! Each engine has at most one stored result. A result is handed out only
//! while it is fresh: strictly before the instant at which it was stored
//! plus the time to live. Stale results stay in place until they are
//! overwritten or cleared; nothing is removed on a read.
//!
//! Times are milliseconds on a clock that never goes back.

use crate::types::{DetectionResult, DetectionResultView, RuntimeType};
use std::time::{Duration, Instant};
use vstd::prelude::*;

verus! {

/// A point of the monotonic clock of std.
#[verifier::external_type_specification]
#[verifier::external_body]
pub struct ExInstant(std::time::Instant);

/// The present instant.
///
/// Trusted: calls `Instant::now`. Nothing is claimed of the result.
#[verifier::external_body]
fn clock_origin() -> (origin: Instant) {
    Instant::now()
}

/// The time that has passed since `origin`.
///
/// Trusted: calls `Instant::elapsed`. Nothing is claimed of the result,
/// which depends on when the call is made.
#[verifier::external_body]
fn elapsed_since(origin: &Instant) -> (passed: Duration) {
    origin.elapsed()
}

/// The whole milliseconds of a duration.
///
/// Trusted: calls `Duration::as_millis`. Nothing is claimed of the
/// result: no contract of this crate depends on it.
#[verifier::external_body]
fn whole_millis(passed: &Duration) -> (ms: u128) {
    passed.as_millis()
}

/// A stored result and the time at which it was stored.
struct CacheEntry {
    result: DetectionResult,
    stored_at: u128,
}

/// The mathematical content of a stored entry.
pub struct CacheEntryView {
    pub result: DetectionResultView,
    pub stored_at: nat,
}

/// The mathematical content of a [`DetectionCache`].
pub struct DetectionCacheView {
    /// Seconds for which an entry stays fresh.
    pub ttl_seconds: nat,
    pub entries: Map<RuntimeType, CacheEntryView>,
}

impl DetectionCacheView {
    /// Whether an entry stored at `stored_at` is still fresh at `now`.
    pub open spec fn is_fresh(self, stored_at: nat, now: nat) -> bool {
        now < stored_at + self.ttl_seconds * 1000
    }

    /// What a read of `kind` at time `now` gives.
    pub open spec fn lookup(self, kind: RuntimeType, now: nat) -> Option<DetectionResultView> {
        if self.entries.contains_key(kind) && self.is_fresh(self.entries[kind].stored_at, now) {
            Some(self.entries[kind].result)
        } else {
            None
        }
    }

    /// What a read of `kind` gives when the clock says `now`.
    pub open spec fn reading(self, kind: RuntimeType, now: u128) -> Option<DetectionResultView> {
        self.lookup(kind, now as nat)
    }

    /// Whether the entry of `kind` is fresh whatever the clock says: there
    /// is one, and it expires later than any time that the clock can give.
    pub open spec fn outlasts_clock(self, kind: RuntimeType) -> bool {
        self.entries.contains_key(kind) && self.entries[kind].stored_at + self.ttl_seconds * 1000
            > u128::MAX
    }

    /// The cache after `result` was stored for `kind` at time `now`.
    pub open spec fn store(self, kind: RuntimeType, result: DetectionResultView, now: nat) -> Self {
        DetectionCacheView {
            ttl_seconds: self.ttl_seconds,
            entries: self.entries.insert(kind, CacheEntryView { result, stored_at: now }),
        }
    }

    /// The cache after the entry of `kind` was removed.
    pub open spec fn remove(self, kind: RuntimeType) -> Self {
        DetectionCacheView { ttl_seconds: self.ttl_seconds, entries: self.entries.remove(kind) }
    }

    /// The cache after every entry was removed.
    pub open spec fn remove_all(self) -> Self {
        DetectionCacheView { ttl_seconds: self.ttl_seconds, entries: Map::empty() }
    }
}

/// The content of an optional result.
pub open spec fn result_view(result: Option<DetectionResult>) -> Option<DetectionResultView> {
    match result {
        Some(r) => Some(r@),
        None => None,
    }
}

/// The content of an optional entry.
spec fn slot_view(slot: Option<CacheEntry>) -> Option<CacheEntryView> {
    match slot {
        Some(e) => Some(CacheEntryView { result: e.result@, stored_at: e.stored_at as nat }),
        None => None,
    }
}

/// The map that holds the two slots.
spec fn slots_map(docker: Option<CacheEntryView>, podman: Option<CacheEntryView>) -> Map<
    RuntimeType,
    CacheEntryView,
> {
    Map::new(
        |k: RuntimeType|
            match k {
                RuntimeType::Docker => docker is Some,
                RuntimeType::Podman => podman is Some,
            },
        |k: RuntimeType|
            match k {
                RuntimeType::Docker => docker->0,
                RuntimeType::Podman => podman->0,
            },
    )
}

/// Detection results by engine, each valid for a fixed time to live.
pub struct DetectionCache {
    docker: Option<CacheEntry>,
    podman: Option<CacheEntry>,
    ttl_seconds: u64,
    origin: Instant,
}

impl View for DetectionCache {
    type V = DetectionCacheView;

    closed spec fn view(&self) -> DetectionCacheView {
        DetectionCacheView {
            ttl_seconds: self.ttl_seconds as nat,
            entries: slots_map(slot_view(self.docker), slot_view(self.podman)),
        }
    }
}

impl DetectionCache {
    /// An empty cache whose entries stay fresh for `ttl_seconds`.
    pub fn new(ttl_seconds: u64) -> (cache: Self)
        ensures
            cache@.ttl_seconds == ttl_seconds,
            cache@.entries == Map::<RuntimeType, CacheEntryView>::empty(),
    {
        let cache = DetectionCache {
            docker: None,
            podman: None,
            ttl_seconds,
            origin: clock_origin(),
        };
        assert(cache@.entries =~= Map::<RuntimeType, CacheEntryView>::empty());
        cache
    }

    /// The time to live of the entries, in seconds.
    pub fn ttl_seconds(&self) -> (ttl: u64)
        ensures
            ttl == self@.ttl_seconds,
    {
        self.ttl_seconds
    }

    /// The milliseconds that have passed on this cache's clock since it was
    /// made.
    pub fn now(&self) -> (ms: u128) {
        let passed = elapsed_since(&self.origin);
        whole_millis(&passed)
    }

    /// The result stored for `runtime_type`, if it is still fresh at the
    /// time `now`. The cache is left as it is.
    pub fn get_at(&self, runtime_type: &RuntimeType, now: u128) -> (r: Option<DetectionResult>)
        ensures
            match r {
                Some(result) => self@.lookup(*runtime_type, now as nat) == Some(result@),
                None => self@.lookup(*runtime_type, now as nat) is None,
            },
    {
        let slot = match runtime_type {
            RuntimeType::Docker => &self.docker,
            RuntimeType::Podman => &self.podman,
        };
        match slot {
            Some(entry) => {
                let ttl_ms: u128 = (self.ttl_seconds as u128) * 1000;
                if now < entry.stored_at || now - entry.stored_at < ttl_ms {
                    Some(entry.result.duplicate())
                } else {
                    None
                }
            },
            None => None,
        }
    }

    /// The result stored for `runtime_type`, if it is still fresh at the
    /// time of the call.
    ///
    /// What comes back is what a read gives at some reading of the clock.
    /// So a result that comes back is the one that was stored last for this
    /// engine, nothing comes back where nothing is stored, and an entry
    /// that outlasts every reading of the clock always comes back.
    pub fn get(&self, runtime_type: &RuntimeType) -> (r: Option<DetectionResult>)
        ensures
            exists|now: u128| #[trigger] self@.reading(*runtime_type, now) == result_view(r),
            r matches Some(result) ==> self@.entries.contains_key(*runtime_type)
                && self@.entries[*runtime_type].result == result@,
            !self@.entries.contains_key(*runtime_type) ==> r is None,
            self@.outlasts_clock(*runtime_type) ==> r is Some,
    {
        let now = self.now();
        let r = self.get_at(runtime_type, now);
        assert(self@.reading(*runtime_type, now) == result_view(r));
        r
    }

    /// Stores `result` for `runtime_type` as of the time `now`, in place of
    /// what was stored for that engine before.
    pub fn set_at(&mut self, runtime_type: RuntimeType, result: DetectionResult, now: u128)
        ensures
            final(self)@ == old(self)@.store(runtime_type, result@, now as nat),
    {
        let entry = CacheEntry { result, stored_at: now };
        match runtime_type {
            RuntimeType::Docker => {
                self.docker = Some(entry);
            },
            RuntimeType::Podman => {
                self.podman = Some(entry);
            },
        }
        assert(self@.entries =~= old(self)@.store(runtime_type, result@, now as nat).entries);
    }

    /// Stores `result` for `runtime_type` as of the time of the call.
    ///
    /// Whatever the clock says, the cache afterwards holds `result` for this
    /// engine and what it held before for the other.
    pub fn set(&mut self, runtime_type: RuntimeType, result: DetectionResult)
        ensures
            final(self)@.entries.contains_key(runtime_type),
            final(self)@ == old(self)@.store(
                runtime_type,
                result@,
                final(self)@.entries[runtime_type].stored_at,
            ),
    {
        let now = self.now();
        self.set_at(runtime_type, result, now);
    }

    /// Removes what is stored for `runtime_type`.
    pub fn clear(&mut self, runtime_type: &RuntimeType)
        ensures
            final(self)@ == old(self)@.remove(*runtime_type),
    {
        match runtime_type {
            RuntimeType::Docker => {
                self.docker = None;
            },
            RuntimeType::Podman => {
                self.podman = None;
            },
        }
        assert(self@.entries =~= old(self)@.remove(*runtime_type).entries);
    }

    /// Removes every stored result.
    pub fn clear_all(&mut self)
        ensures
            final(self)@ == old(self)@.remove_all(),
    {
        self.docker = None;
        self.podman = None;
        assert(self@.entries =~= old(self)@.remove_all().entries);
    }
}

/// A result that was stored is read back unchanged until its time to live
/// has passed: at any time from `stored` up to, but not including,
/// `stored + ttl`, a read gives exactly `result`.
pub proof fn lemma_set_then_get(
    cache: DetectionCacheView,
    kind: RuntimeType,
    result: DetectionResultView,
    stored: nat,
    now: nat,
)
    requires
        stored <= now < stored + cache.ttl_seconds * 1000,
    ensures
        cache.store(kind, result, stored).lookup(kind, now) == Some(result),
{
}

/// A read at the very time of the write gives the result back, as long as
/// the time to live is not zero.
pub proof fn lemma_set_then_get_at_once(
    cache: DetectionCacheView,
    kind: RuntimeType,
    result: DetectionResultView,
    now: nat,
)
    requires
        cache.ttl_seconds > 0,
    ensures
        cache.store(kind, result, now).lookup(kind, now) == Some(result),
{
}

/// Once the time to live has passed, a read gives nothing: from
/// `stored + ttl` on, the stored result is no longer handed out.
pub proof fn lemma_get_after_ttl(
    cache: DetectionCacheView,
    kind: RuntimeType,
    result: DetectionResultView,
    stored: nat,
    now: nat,
)
    requires
        now >= stored + cache.ttl_seconds * 1000,
    ensures
        cache.store(kind, result, stored).lookup(kind, now) is None,
{
}

/// No read ever gives a result at or past its expiry.
pub proof fn lemma_never_past_expiry(cache: DetectionCacheView, kind: RuntimeType, now: nat)
    requires
        cache.lookup(kind, now) is Some,
    ensures
        cache.entries.contains_key(kind),
        now < cache.entries[kind].stored_at + cache.ttl_seconds * 1000,
{
}

/// After everything was cleared every read gives nothing, whatever was
/// stored before and however fresh it was.
pub proof fn lemma_clear_all_empties(cache: DetectionCacheView, kind: RuntimeType, now: nat)
    ensures
        cache.remove_all().lookup(kind, now) is None,
{
}

/// After one engine was cleared its read gives nothing, and the reads of
/// the other engine are as before.
pub proof fn lemma_clear_one(
    cache: DetectionCacheView,
    kind: RuntimeType,
    other: RuntimeType,
    now: nat,
)
    ensures
        cache.remove(kind).lookup(kind, now) is None,
        other != kind ==> cache.remove(kind).lookup(other, now) == cache.lookup(other, now),
{
}

/// Storing a result for one engine leaves the reads of the other engine
/// as they were.
pub proof fn lemma_store_keeps_other(
    cache: DetectionCacheView,
    kind: RuntimeType,
    other: RuntimeType,
    result: DetectionResultView,
    stored: nat,
    now: nat,
)
    requires
        other != kind,
    ensures
        cache.store(kind, result, stored).lookup(other, now) == cache.lookup(other, now),
{
}

} // verus!
