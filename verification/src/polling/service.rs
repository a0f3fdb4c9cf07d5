//! The state of the polling service and the decisions of one tick.
//!
//! The service is either stopped or running. While it runs, every tick
//! goes through the held runtimes. A runtime whose last probes failed is
//! skipped at random, the more often the longer it has failed: with `n`
//! failures in a row, capped at five, a tick probes it with one chance in
//! `2^n`. Each probe that is made produces one status update.

use crate::clock::utc_now_millis;
use crate::types::{
    duplicate_runtimes, runtime_views, Runtime, RuntimeStatus, RuntimeView, StatusUpdate,
};
use rand::Rng;
use vstd::hash_map::StringHashMap;
use vstd::prelude::*;

verus! {

/// The most failures in a row that are counted for one runtime.
pub const MAX_FAILURE_COUNT: u32 = 5;

/// A random number, each value of `u32` as likely as any other.
///
/// Trusted: calls `rand::thread_rng` and draws with `Rng::gen`. Nothing is
/// claimed of the number drawn.
#[verifier::external_body]
fn draw_u32() -> (n: u32) {
    rand::thread_rng().gen::<u32>()
}

/// Two to the power `n`.
pub open spec fn two_to(n: nat) -> nat
    decreases n,
{
    if n == 0 {
        1
    } else {
        2 * two_to((n - 1) as nat)
    }
}

/// The number of ticks over which one probe of a runtime with
/// `failures` failures in a row is spread: `2^min(failures, 5)`.
pub open spec fn backoff_factor(failures: nat) -> nat {
    two_to(if failures < MAX_FAILURE_COUNT { failures } else { MAX_FAILURE_COUNT as nat })
}

/// Whether a status counts as a failed probe.
pub open spec fn is_failure(status: RuntimeStatus) -> bool {
    status == RuntimeStatus::Error || status == RuntimeStatus::Unknown
}

/// The mathematical content of a [`PollingService`].
pub struct PollingServiceView {
    pub runtimes: Seq<RuntimeView>,
    pub running: bool,
    pub interval_secs: nat,
    /// Failures in a row, by runtime id. A runtime that did not fail last
    /// has no entry.
    pub failures: Map<Seq<char>, u32>,
}

impl PollingServiceView {
    /// The failures in a row of the runtime `id`, zero if it has none.
    pub open spec fn failure_count(self, id: Seq<char>) -> nat {
        if self.failures.contains_key(id) {
            self.failures[id] as nat
        } else {
            0
        }
    }

    /// Whether a tick leaves the runtime `id` out when the number drawn for
    /// it is `draw`.
    pub open spec fn skips(self, id: Seq<char>, draw: u32) -> bool {
        self.failure_count(id) > 0 && draw as nat % backoff_factor(self.failure_count(id)) != 0
    }

    /// The failure count of `id` after a probe gave `status`.
    pub open spec fn next_failure_count(self, id: Seq<char>, status: RuntimeStatus) -> nat {
        if is_failure(status) {
            if self.failure_count(id) + 1 < MAX_FAILURE_COUNT {
                self.failure_count(id) + 1
            } else {
                MAX_FAILURE_COUNT as nat
            }
        } else {
            0
        }
    }

    /// The service after a probe of `id` gave `status`.
    pub open spec fn after_probe(self, id: Seq<char>, status: RuntimeStatus) -> Self {
        PollingServiceView {
            failures: if is_failure(status) {
                self.failures.insert(id, self.next_failure_count(id, status) as u32)
            } else {
                self.failures.remove(id)
            },
            ..self
        }
    }

    /// Whether polling can be turned on: only while it is off.
    pub open spec fn can_start(self) -> bool {
        !self.running
    }

    /// The service with polling on.
    pub open spec fn started(self) -> Self {
        PollingServiceView { running: true, ..self }
    }

    /// The service with polling off.
    pub open spec fn stopped(self) -> Self {
        PollingServiceView { running: false, ..self }
    }

    /// The service after the probes of `id` gave `statuses`, one after the
    /// other.
    pub open spec fn after_probes(self, id: Seq<char>, statuses: Seq<RuntimeStatus>) -> Self
        decreases statuses.len(),
    {
        if statuses.len() == 0 {
            self
        } else {
            self.after_probes(id, statuses.drop_last()).after_probe(id, statuses.last())
        }
    }

    /// Whether no stored count is zero or above the cap.
    pub open spec fn counts_bounded(self) -> bool {
        forall|id: Seq<char>| #[trigger]
            self.failures.contains_key(id) ==> 1 <= self.failures[id] <= MAX_FAILURE_COUNT
    }
}

/// The runtimes to poll, whether polling is on, and the failure counts.
pub struct PollingService {
    runtimes: Vec<Runtime>,
    is_running: bool,
    interval_secs: u64,
    failure_counts: StringHashMap<u32>,
}

impl View for PollingService {
    type V = PollingServiceView;

    closed spec fn view(&self) -> PollingServiceView {
        PollingServiceView {
            runtimes: runtime_views(self.runtimes@),
            running: self.is_running,
            interval_secs: self.interval_secs as nat,
            failures: self.failure_counts@,
        }
    }
}

impl PollingService {
    /// Every stored failure count is at least one and at most the cap.
    #[verifier::type_invariant]
    spec fn counts_in_range(self) -> bool {
        forall|id: Seq<char>| #[trigger]
            self.failure_counts@.contains_key(id) ==> 1 <= self.failure_counts@[id]
                <= MAX_FAILURE_COUNT
    }

    /// A stopped service that holds no runtime and ticks every
    /// `interval_secs` seconds once started.
    pub fn new(interval_secs: u64) -> (service: Self)
        ensures
            service@.runtimes.len() == 0,
            !service@.running,
            service@.interval_secs == interval_secs,
            service@.failures == Map::<Seq<char>, u32>::empty(),
    {
        let service = PollingService {
            runtimes: Vec::new(),
            is_running: false,
            interval_secs,
            failure_counts: StringHashMap::new(),
        };
        assert(runtime_views(service.runtimes@) =~= Seq::<RuntimeView>::empty());
        service
    }

    /// Replaces the runtimes to poll, all at once. The next tick goes
    /// through the new list.
    pub fn set_runtimes(&mut self, runtimes: Vec<Runtime>)
        ensures
            final(self)@ == (PollingServiceView {
                runtimes: runtime_views(runtimes@),
                ..old(self)@
            }),
    {
        proof {
            use_type_invariant(&*self);
        }
        self.runtimes = runtimes;
    }

    /// A copy of the runtimes that the next tick goes through.
    pub fn runtimes(&self) -> (list: Vec<Runtime>)
        ensures
            runtime_views(list@) == self@.runtimes,
    {
        duplicate_runtimes(&self.runtimes)
    }

    /// The seconds between two ticks.
    pub fn interval_secs(&self) -> (secs: u64)
        ensures
            secs == self@.interval_secs,
    {
        self.interval_secs
    }

    /// Turns polling on.
    ///
    /// Fails, and changes nothing, when polling is on already: the caller
    /// starts the tick loop only after `Ok`, so a second loop is never
    /// started.
    pub fn start(&mut self) -> (r: Result<(), String>)
        ensures
            r is Ok <==> old(self)@.can_start(),
            r is Ok ==> final(self)@ == old(self)@.started(),
            r is Err ==> final(self)@ == old(self)@,
            r matches Err(message) ==> message@ == "Polling service already running"@,
    {
        proof {
            use_type_invariant(&*self);
        }
        if self.is_running {
            return Err("Polling service already running".to_string());
        }
        self.is_running = true;
        Ok(())
    }

    /// Turns polling off. The tick loop sees it at the top of its next
    /// tick and ends.
    pub fn stop(&mut self)
        ensures
            final(self)@ == old(self)@.stopped(),
    {
        proof {
            use_type_invariant(&*self);
        }
        self.is_running = false;
    }

    /// Whether polling is on.
    pub fn is_running(&self) -> (b: bool)
        ensures
            b == self@.running,
    {
        self.is_running
    }

    /// The failures in a row of the runtime `runtime_id`; never above
    /// [`MAX_FAILURE_COUNT`].
    pub fn failure_count(&self, runtime_id: &str) -> (count: u32)
        ensures
            count == self@.failure_count(runtime_id@),
            count <= MAX_FAILURE_COUNT,
            self@.counts_bounded(),
    {
        proof {
            use_type_invariant(self);
        }
        match self.failure_counts.get(runtime_id) {
            Some(count) => *count,
            None => 0,
        }
    }

    /// Whether this tick leaves `runtime_id` out, given the number drawn
    /// for it: a runtime without failures is never left out, and one with
    /// `n` failures is probed only when `2^min(n, 5)` divides `draw`.
    pub fn should_skip_with(&self, runtime_id: &str, draw: u32) -> (skip: bool)
        ensures
            skip == self@.skips(runtime_id@, draw),
    {
        let count = self.failure_count(runtime_id);
        if count == 0 {
            return false;
        }
        let mut factor: u32 = 1;
        let mut i: u32 = 0;
        proof {
            reveal_with_fuel(two_to, 6);
        }
        while i < count
            invariant
                i <= count <= MAX_FAILURE_COUNT,
                factor == two_to(i as nat),
                factor <= 32,
            decreases count - i,
        {
            proof {
                reveal_with_fuel(two_to, 6);
            }
            factor = factor * 2;
            i += 1;
        }
        draw % factor != 0
    }

    /// Whether this tick leaves `runtime_id` out, drawing the number
    /// itself.
    ///
    /// Whatever is drawn, a runtime without failures is not left out.
    pub fn should_skip(&self, runtime_id: &str) -> (skip: bool)
        ensures
            skip ==> self@.failure_count(runtime_id@) > 0,
    {
        let draw = draw_u32();
        self.should_skip_with(runtime_id, draw)
    }

    /// Takes note of a probe of `runtime_id` made at `timestamp` and
    /// returns the update to send.
    ///
    /// `Error` and `Unknown` add one to the runtime's failures, up to
    /// [`MAX_FAILURE_COUNT`]; any other status removes its count.
    pub fn record_status_at(
        &mut self,
        runtime_id: &str,
        status: RuntimeStatus,
        timestamp: i64,
    ) -> (update: StatusUpdate)
        ensures
            final(self)@ == old(self)@.after_probe(runtime_id@, status),
            final(self)@.failure_count(runtime_id@) == old(self)@.next_failure_count(
                runtime_id@,
                status,
            ),
            final(self)@.failure_count(runtime_id@) <= MAX_FAILURE_COUNT,
            final(self)@.counts_bounded(),
            update.runtime_id@ == runtime_id@,
            update.status == status,
            update.timestamp == timestamp,
            update.error is None,
    {
        proof {
            use_type_invariant(&*self);
        }
        let failed = match status {
            RuntimeStatus::Error => true,
            RuntimeStatus::Unknown => true,
            _ => false,
        };
        let count = self.failure_count(runtime_id);
        let mut counts: StringHashMap<u32> = StringHashMap::new();
        std::mem::swap(&mut self.failure_counts, &mut counts);
        if failed {
            let next: u32 = if count + 1 < MAX_FAILURE_COUNT {
                count + 1
            } else {
                MAX_FAILURE_COUNT
            };
            counts.insert(runtime_id.to_string(), next);
        } else {
            counts.remove(runtime_id);
        }
        std::mem::swap(&mut self.failure_counts, &mut counts);
        StatusUpdate { runtime_id: runtime_id.to_string(), status, timestamp, error: None }
    }

    /// Takes note of a probe of `runtime_id` made just now and returns the
    /// update to send, stamped with the present time.
    pub fn record_status(&mut self, runtime_id: &str, status: RuntimeStatus) -> (update:
        StatusUpdate)
        ensures
            final(self)@ == old(self)@.after_probe(runtime_id@, status),
            final(self)@.failure_count(runtime_id@) <= MAX_FAILURE_COUNT,
            final(self)@.counts_bounded(),
            update.runtime_id@ == runtime_id@,
            update.status == status,
            update.error is None,
    {
        let timestamp = utc_now_millis();
        self.record_status_at(runtime_id, status, timestamp)
    }
}

/// Starting is guarded: once the service was started it cannot be
/// started again until it is stopped, so a second `start` in a row fails
/// and leaves the one loop that runs alone.
pub proof fn lemma_second_start_fails(service: PollingServiceView)
    ensures
        !service.started().can_start(),
        service.started().stopped().can_start(),
{
}

/// The stored failure count of a runtime never goes above the cap,
/// however many probes fail in a row: after any run of probes, starting
/// from a count within the cap, the count is within the cap.
pub proof fn lemma_failure_count_bounded(
    service: PollingServiceView,
    id: Seq<char>,
    statuses: Seq<RuntimeStatus>,
)
    requires
        service.failure_count(id) <= MAX_FAILURE_COUNT,
    ensures
        service.after_probes(id, statuses).failure_count(id) <= MAX_FAILURE_COUNT,
    decreases statuses.len(),
{
    if statuses.len() > 0 {
        lemma_failure_count_bounded(service, id, statuses.drop_last());
    }
}

/// After `n` failed probes in a row the count is the count before plus
/// `n`, or the cap if that is less.
pub proof fn lemma_failures_add_up(
    service: PollingServiceView,
    id: Seq<char>,
    statuses: Seq<RuntimeStatus>,
)
    requires
        service.failure_count(id) <= MAX_FAILURE_COUNT,
        forall|i: int| 0 <= i < statuses.len() ==> is_failure(#[trigger] statuses[i]),
    ensures
        service.after_probes(id, statuses).failure_count(id) == (if service.failure_count(id)
            + statuses.len() < MAX_FAILURE_COUNT {
            service.failure_count(id) + statuses.len()
        } else {
            MAX_FAILURE_COUNT as nat
        }),
    decreases statuses.len(),
{
    if statuses.len() > 0 {
        let before = statuses.drop_last();
        assert forall|i: int| 0 <= i < before.len() implies is_failure(#[trigger] before[i]) by {
            assert(before[i] == statuses[i]);
        }
        lemma_failures_add_up(service, id, before);
    }
}

/// One probe that does not fail clears the count, whatever it was.
pub proof fn lemma_success_clears(service: PollingServiceView, id: Seq<char>, status: RuntimeStatus)
    requires
        !is_failure(status),
    ensures
        service.after_probe(id, status).failure_count(id) == 0,
        forall|draw: u32| !service.after_probe(id, status).skips(id, draw),
{
}

/// A probe of one runtime leaves the counts of the others alone.
pub proof fn lemma_probe_keeps_others(
    service: PollingServiceView,
    id: Seq<char>,
    other: Seq<char>,
    status: RuntimeStatus,
)
    requires
        other != id,
    ensures
        service.after_probe(id, status).failure_count(other) == service.failure_count(other),
{
}

/// More failures never mean more probes: the backoff factor does not go
/// down as the failure count goes up, and it stays between 1 and 32.
pub proof fn lemma_backoff_monotone(fewer: nat, more: nat)
    requires
        fewer <= more,
    ensures
        1 <= backoff_factor(fewer) <= backoff_factor(more) <= 32,
{
    reveal_with_fuel(two_to, 6);
}

/// A draw that a longer run of failures lets through is let through
/// with fewer failures too: the draws that lead to a probe shrink as the
/// count grows.
pub proof fn lemma_backoff_nested(fewer: nat, more: nat, draw: u32)
    requires
        fewer <= more,
        draw as nat % backoff_factor(more) == 0,
    ensures
        draw as nat % backoff_factor(fewer) == 0,
{
    reveal_with_fuel(two_to, 6);
    let f = backoff_factor(fewer);
    let m = backoff_factor(more);
    assert(f == 1 || f == 2 || f == 4 || f == 8 || f == 16 || f == 32);
    assert(m == 1 || m == 2 || m == 4 || m == 8 || m == 16 || m == 32);
    assert(f <= m);
    assert(draw % 32 == 0 ==> draw % 16 == 0) by (bit_vector);
    assert(draw % 16 == 0 ==> draw % 8 == 0) by (bit_vector);
    assert(draw % 8 == 0 ==> draw % 4 == 0) by (bit_vector);
    assert(draw % 4 == 0 ==> draw % 2 == 0) by (bit_vector);
}

} // verus!
