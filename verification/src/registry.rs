use vstd::prelude::*;
use crate::text::str_eq;
use crate::failure::{FailureDisposition, HandlerFailure};

verus! {

/// A queue lane: workers poll the lanes they serve.
#[derive(Clone, Copy, Debug, PartialEq, Eq, Structural)]
pub enum Lane {
    Core,
    Ingress,
    Push,
    Pull,
    Mail,
    Maintenance,
}

/// The shared resource a handler holds while it runs.
#[derive(Clone, Copy, Debug, PartialEq, Eq, Structural)]
pub enum ResourceClass {
    /// The handler holds no shared resource.
    Unlimited,
    RemoteHttp,
    Media,
}

/// Why the worker could not be configured or run.
#[derive(Debug)]
pub enum WorkerError {
    /// A queue operation failed; the text describes it.
    Jobs(String),
    InvalidConfiguration(&'static str),
    RegistryUnavailable,
    SemaphoreClosed,
    StartupReconciliationFailed,
    TaskFailed,
    ShutdownTimedOut,
}

/// The text a worker error displays.
pub open spec fn worker_error_text(e: WorkerError) -> Seq<char> {
    match e {
        WorkerError::Jobs(message) => message@,
        WorkerError::InvalidConfiguration(message) => message@,
        WorkerError::RegistryUnavailable => "worker handler registry is unavailable"@,
        WorkerError::SemaphoreClosed => "worker resource limiter is closed"@,
        WorkerError::StartupReconciliationFailed => "startup poll expiration reconciliation failed"@,
        WorkerError::TaskFailed => "a worker task stopped unexpectedly"@,
        WorkerError::ShutdownTimedOut => "worker shutdown exceeded its configured deadline"@,
    }
}

impl WorkerError {
    /// The text this error displays.
    pub fn message(&self) -> (text: String)
        ensures
            text@ == worker_error_text(*self),
    {
        match self {
            WorkerError::Jobs(message) => message.clone(),
            WorkerError::InvalidConfiguration(message) => (*message).to_owned(),
            WorkerError::RegistryUnavailable => "worker handler registry is unavailable".to_owned(),
            WorkerError::SemaphoreClosed => "worker resource limiter is closed".to_owned(),
            WorkerError::StartupReconciliationFailed => {
                "startup poll expiration reconciliation failed".to_owned()
            },
            WorkerError::TaskFailed => "a worker task stopped unexpectedly".to_owned(),
            WorkerError::ShutdownTimedOut => {
                "worker shutdown exceeded its configured deadline".to_owned()
            },
        }
    }
}

/// Where and with what a registered job kind runs.
#[derive(Clone, Copy, Debug, PartialEq, Eq, Structural)]
pub struct HandlerRoute {
    pub lane: Lane,
    pub resource: ResourceClass,
}

/// The routes of registered job kinds, at most one per kind.
pub struct HandlerRegistry {
    kinds: Vec<String>,
    routes: Vec<HandlerRoute>,
}

/// The route of `kind` among the first `n` registrations.
pub open spec fn route_in(kinds: Seq<Seq<char>>, routes: Seq<HandlerRoute>, kind: Seq<char>) -> Option<HandlerRoute>
    decreases kinds.len(),
{
    if kinds.len() == 0 || routes.len() == 0 {
        None
    } else if kinds.last() == kind {
        Some(routes.last())
    } else {
        route_in(kinds.drop_last(), routes.drop_last(), kind)
    }
}

/// A kind present among the registrations has a route.
proof fn lemma_route_in_found(kinds: Seq<Seq<char>>, routes: Seq<HandlerRoute>, i: int, kind: Seq<char>)
    requires
        kinds.len() == routes.len(),
        0 <= i < kinds.len(),
        kinds[i] == kind,
    ensures
        route_in(kinds, routes, kind) is Some,
    decreases kinds.len(),
{
    if kinds.last() != kind {
        lemma_route_in_found(kinds.drop_last(), routes.drop_last(), i, kind);
    }
}

impl HandlerRegistry {
    /// Kinds and routes pair up, and no kind is registered twice.
    pub closed spec fn wf(self) -> bool {
        &&& self.kinds@.len() == self.routes@.len()
        &&& forall|i: int, j: int| 0 <= i < j < self.kinds@.len() ==> self.kinds@[i]@ != self.kinds@[j]@
    }

    /// The registered kinds, in registration order.
    pub closed spec fn kinds_view(self) -> Seq<Seq<char>> {
        self.kinds@.map_values(|k: String| k@)
    }

    /// The route registered for each kind.
    pub closed spec fn route_of(self, kind: Seq<char>) -> Option<HandlerRoute> {
        route_in(self.kinds_view(), self.routes@, kind)
    }

    /// Whether a kind is registered.
    pub open spec fn has_kind(self, kind: Seq<char>) -> bool {
        self.route_of(kind) is Some
    }

    /// The lanes that have at least one registered kind.
    pub open spec fn lane_served(self, lane: Lane) -> bool {
        exists|kind: Seq<char>| #[trigger] self.route_of(kind) matches Some(r) && r.lane == lane
    }

    /// An empty registry.
    pub fn new() -> (registry: HandlerRegistry)
        ensures
            registry.wf(),
            forall|kind: Seq<char>| #[trigger] registry.route_of(kind) is None,
    {
        HandlerRegistry { kinds: Vec::new(), routes: Vec::new() }
    }

    /// Registers the route of exactly one handler for a job kind. The kind must hold
    /// 1 to 128 bytes and may be registered once; a rejected registration changes nothing.
    pub fn register(&mut self, kind: &str, lane: Lane, resource: ResourceClass) -> (r: Result<(), WorkerError>)
        requires
            old(self).wf(),
        ensures
            final(self).wf(),
            !(1 <= kind@.len() && kind.len() <= 128) ==> (r matches Err(WorkerError::InvalidConfiguration(m))
                && m@ == "handler kind must contain 1-128 bytes"@),
            (1 <= kind@.len() && kind.len() <= 128) && old(self).has_kind(kind@) ==> (r matches Err(WorkerError::InvalidConfiguration(m))
                && m@ == "durable job handler is already registered"@),
            r is Ok <==> (1 <= kind@.len() && kind.len() <= 128 && !old(self).has_kind(kind@)),
            r is Ok ==> forall|k: Seq<char>| #[trigger] final(self).route_of(k) == (if k == kind@ {
                Some(HandlerRoute { lane, resource })
            } else {
                old(self).route_of(k)
            }),
            r is Err ==> forall|k: Seq<char>| #[trigger] final(self).route_of(k) == old(self).route_of(k),
    {
        let bytes = kind.len();
        if kind.is_empty() || bytes > 128 {
            return Err(WorkerError::InvalidConfiguration("handler kind must contain 1-128 bytes"));
        }
        let found = self.position(kind);
        if found.is_some() {
            return Err(WorkerError::InvalidConfiguration("durable job handler is already registered"));
        }
        let ghost old_kinds = self.kinds_view();
        let ghost old_routes = self.routes@;
        self.kinds.push(kind.to_owned());
        self.routes.push(HandlerRoute { lane, resource });
        proof {
            assert forall|i: int, j: int| 0 <= i < j < self.kinds@.len() implies self.kinds@[i]@ != self.kinds@[j]@ by {
                if j == self.kinds@.len() - 1 {
                    if self.kinds@[i]@ == kind@ {
                        lemma_route_in_found(old_kinds, old_routes, i, kind@);
                    }
                }
            }
            assert(self.kinds_view().drop_last() =~= old_kinds);
            assert(self.routes@.drop_last() =~= old_routes);
            assert forall|k: Seq<char>| #[trigger] self.route_of(k) == (if k == kind@ {
                Some(HandlerRoute { lane, resource })
            } else {
                route_in(old_kinds, old_routes, k)
            }) by {
                assert(self.kinds_view().last() == kind@);
            }
        }
        Ok(())
    }

    /// The index of a registered kind.
    fn position(&self, kind: &str) -> (i: Option<usize>)
        requires
            self.wf(),
        ensures
            i is None <==> !self.has_kind(kind@),
            i matches Some(i) ==> i < self.kinds@.len() && self.kinds@[i as int]@ == kind@
                && self.route_of(kind@) == Some(self.routes@[i as int]),
    {
        let mut i: usize = self.kinds.len();
        assert(self.kinds_view().take(i as int) =~= self.kinds_view());
        assert(self.routes@.take(i as int) =~= self.routes@);
        while i > 0
            invariant
                i <= self.kinds@.len(),
                self.kinds@.len() == self.routes@.len(),
                route_in(self.kinds_view(), self.routes@, kind@) == route_in(
                    self.kinds_view().take(i as int),
                    self.routes@.take(i as int),
                    kind@,
                ),
            decreases i,
        {
            let j = i - 1;
            assert(self.kinds_view().take(i as int).drop_last() =~= self.kinds_view().take(j as int));
            assert(self.routes@.take(i as int).drop_last() =~= self.routes@.take(j as int));
            assert(self.kinds_view().take(i as int).last() == self.kinds@[j as int]@);
            if str_eq(self.kinds[j].as_str(), kind) {
                assert(self.routes@.take(i as int).last() == self.routes@[j as int]);
                return Some(j);
            }
            i = j;
        }
        None
    }

    /// The route registered for a kind.
    pub fn get(&self, kind: &str) -> (route: Option<HandlerRoute>)
        requires
            self.wf(),
        ensures
            route == self.route_of(kind@),
    {
        match self.position(kind) {
            Some(i) => Some(self.routes[i]),
            None => None,
        }
    }
}

/// With distinct kinds, the route of a registered kind is the one registered with it.
proof fn lemma_route_in_at(kinds: Seq<Seq<char>>, routes: Seq<HandlerRoute>, i: int)
    requires
        kinds.len() == routes.len(),
        0 <= i < kinds.len(),
        forall|a: int, b: int| 0 <= a < b < kinds.len() ==> kinds[a] != kinds[b],
    ensures
        route_in(kinds, routes, kinds[i]) == Some(routes[i]),
    decreases kinds.len(),
{
    if i != kinds.len() - 1 {
        lemma_route_in_at(kinds.drop_last(), routes.drop_last(), i);
    }
}

/// A route found for a kind is one of the registered routes.
proof fn lemma_route_in_member(kinds: Seq<Seq<char>>, routes: Seq<HandlerRoute>, kind: Seq<char>)
    requires
        kinds.len() == routes.len(),
        route_in(kinds, routes, kind) is Some,
    ensures
        exists|i: int| 0 <= i < routes.len() && routes[i] == route_in(kinds, routes, kind)->0,
    decreases kinds.len(),
{
    if kinds.last() == kind {
        assert(routes[routes.len() - 1] == routes.last());
    } else {
        lemma_route_in_member(kinds.drop_last(), routes.drop_last(), kind);
        let i = choose|i: int| 0 <= i < routes.len() - 1 && routes.drop_last()[i] == route_in(kinds.drop_last(), routes.drop_last(), kind)->0;
        assert(routes[i] == routes.drop_last()[i]);
    }
}

/// The lanes in the order a lane set lists them.
pub open spec fn lane_rank(lane: Lane) -> int {
    match lane {
        Lane::Core => 0,
        Lane::Ingress => 1,
        Lane::Push => 2,
        Lane::Pull => 3,
        Lane::Mail => 4,
        Lane::Maintenance => 5,
    }
}

impl HandlerRegistry {
    fn lane_registered(&self, lane: Lane) -> (r: bool)
        requires
            self.wf(),
        ensures
            r == self.lane_served(lane),
    {
        let mut i: usize = 0;
        while i < self.routes.len()
            invariant
                self.wf(),
                i <= self.routes@.len(),
                forall|j: int| 0 <= j < i ==> self.routes@[j].lane != lane,
            decreases self.routes@.len() - i,
        {
            if self.routes[i].lane == lane {
                proof {
                    lemma_route_in_at(self.kinds_view(), self.routes@, i as int);
                    assert(self.route_of(self.kinds_view()[i as int]) == Some(self.routes@[i as int]));
                }
                return true;
            }
            i = i + 1;
        }
        proof {
            assert forall|kind: Seq<char>| !(#[trigger] self.route_of(kind) matches Some(r) && r.lane == lane) by {
                if self.route_of(kind) is Some {
                    lemma_route_in_member(self.kinds_view(), self.routes@, kind);
                }
            }
        }
        false
    }

    /// The lanes that have at least one registered handler, each once, in lane order.
    pub fn supported_lanes(&self) -> (lanes: Vec<Lane>)
        requires
            self.wf(),
        ensures
            forall|lane: Lane| lanes@.contains(lane) <==> self.lane_served(lane),
            forall|i: int, j: int| 0 <= i < j < lanes@.len() ==> lane_rank(lanes@[i]) < lane_rank(lanes@[j]),
    {
        let mut lanes: Vec<Lane> = Vec::new();
        let mut rank: usize = 0;
        while rank < 6
            invariant
                self.wf(),
                rank <= 6,
                forall|lane: Lane| lanes@.contains(lane) <==> (self.lane_served(lane) && lane_rank(lane) < rank),
                forall|i: int| 0 <= i < lanes@.len() ==> lane_rank(#[trigger] lanes@[i]) < rank,
                forall|i: int, j: int| 0 <= i < j < lanes@.len() ==> lane_rank(lanes@[i]) < lane_rank(lanes@[j]),
            decreases 6 - rank,
        {
            let lane = lane_at_rank(rank);
            let ghost before = lanes@;
            if self.lane_registered(lane) {
                lanes.push(lane);
                proof {
                    assert forall|l: Lane| lanes@.contains(l) <==> (self.lane_served(l) && lane_rank(l) < rank + 1) by {
                        if lane_rank(l) == rank {
                            assert(l == lane);
                            assert(lanes@[lanes@.len() - 1] == lane);
                        }
                        if lanes@.contains(l) && l != lane {
                            let k = choose|k: int| 0 <= k < lanes@.len() && lanes@[k] == l;
                            assert(before[k] == l);
                        }
                        if before.contains(l) {
                            let k = choose|k: int| 0 <= k < before.len() && before[k] == l;
                            assert(lanes@[k] == l);
                        }
                    }
                }
            } else {
                proof {
                    assert forall|l: Lane| lanes@.contains(l) <==> (self.lane_served(l) && lane_rank(l) < rank + 1) by {
                        if lane_rank(l) == rank {
                            assert(l == lane);
                        }
                    }
                }
            }
            rank = rank + 1;
        }
        lanes
    }
}

/// The lane of each rank.
fn lane_at_rank(rank: usize) -> (lane: Lane)
    requires
        rank < 6,
    ensures
        lane_rank(lane) == rank,
{
    if rank == 0 {
        Lane::Core
    } else if rank == 1 {
        Lane::Ingress
    } else if rank == 2 {
        Lane::Push
    } else if rank == 3 {
        Lane::Pull
    } else if rank == 4 {
        Lane::Mail
    } else {
        Lane::Maintenance
    }
}

/// The job kind of the built-in operational cleanup.
pub open spec fn maintenance_prune_kind() -> Seq<char> {
    "rustodon.maintenance.prune"@
}

/// The handlers available before feature-specific handlers are registered: the
/// operational cleanup, on the maintenance lane, holding no shared resource.
pub fn infrastructure_handlers() -> (r: Result<HandlerRegistry, WorkerError>)
    ensures
        r matches Ok(registry) && registry.wf()
            && forall|kind: Seq<char>| #[trigger] registry.route_of(kind) == (if kind == maintenance_prune_kind() {
                Some(HandlerRoute { lane: Lane::Maintenance, resource: ResourceClass::Unlimited })
            } else {
                None
            }),
{
    let mut handlers = HandlerRegistry::new();
    proof {
        reveal_strlit("rustodon.maintenance.prune");
        broadcast use vstd::string::is_ascii_spec_bytes;
        assert(vstd::string::is_ascii("rustodon.maintenance.prune"));
    }
    match handlers.register("rustodon.maintenance.prune", Lane::Maintenance, ResourceClass::Unlimited) {
        Ok(()) => Ok(handlers),
        Err(e) => Err(e),
    }
}

/// What a worker does with a claimed job.
#[derive(Debug)]
pub enum JobDispatch {
    /// Run the registered handler while holding this resource.
    Run(ResourceClass),
    /// Dead-letter the job with this message.
    DeadLetter(&'static str),
}

/// Dispatches a claimed job: a kind without handler, or a handler registered for another
/// lane, is dead-lettered; otherwise the handler runs with its resource.
pub fn dispatch_claimed_job(registry: &HandlerRegistry, kind: &str, lane: Lane) -> (d: JobDispatch)
    requires
        registry.wf(),
    ensures
        registry.route_of(kind@) is None ==> (d matches JobDispatch::DeadLetter(m)
            && m@ == "no handler is registered for this job kind"@),
        registry.route_of(kind@) matches Some(r) && r.lane != lane ==> (d matches JobDispatch::DeadLetter(m)
            && m@ == "job kind is registered for a different lane"@),
        registry.route_of(kind@) matches Some(r) ==> (r.lane == lane ==> (d matches JobDispatch::Run(res) && res == r.resource)),
{
    match registry.get(kind) {
        None => JobDispatch::DeadLetter("no handler is registered for this job kind"),
        Some(route) => if route.lane != lane {
            JobDispatch::DeadLetter("job kind is registered for a different lane")
        } else {
            JobDispatch::Run(route.resource)
        },
    }
}

/// Checks the executor's concurrency limits: both must be positive.
pub fn validate_concurrency(remote_http_concurrency: usize, media_concurrency: usize) -> (r: Result<(), WorkerError>)
    ensures
        r is Ok <==> remote_http_concurrency > 0 && media_concurrency > 0,
        r matches Err(e) ==> (e matches WorkerError::InvalidConfiguration(m)
            && m@ == "worker resource concurrency must be positive"@),
{
    if remote_http_concurrency == 0 || media_concurrency == 0 {
        Err(WorkerError::InvalidConfiguration("worker resource concurrency must be positive"))
    } else {
        Ok(())
    }
}

/// How often a lease is renewed while its handler runs: a third of the lease, at least 1 ms.
pub fn lease_renewal_millis(lease_millis: i64) -> (renewal: u64)
    ensures
        renewal as int == (if lease_millis / 3 >= 1 { lease_millis as int / 3 } else { 1 }),
{
    let third: i64 = lease_millis / 3;
    if third >= 1 { third as u64 } else { 1 }
}

/// The deterministic quartic backoff with per-job jitter, in seconds.
pub open spec fn retry_delay_seconds_spec(job_id: i64, attempt: i32) -> int {
    let a: int = if attempt >= 1 { attempt as int } else { 1 };
    let quartic: int = if a * a * a * a > i64::MAX { i64::MAX as int } else { a * a * a * a };
    let scaled: int = if quartic * 10 > i64::MAX { i64::MAX as int } else { quartic * 10 };
    let bound: int = if scaled >= 1 { scaled } else { 1 };
    let mixed: u64 = (#[verifier::truncate] (job_id as u64)) ^ (((a * 0x9e37_79b9_7f4a_7c15) % 0x1_0000_0000_0000_0000) as u64);
    let jitter: int = (mixed as int) % bound;
    let total: int = 15 + scaled + jitter;
    if total > 86400 { 86400int } else { total }
}

/// The retry backoff of a job after a failed attempt, in seconds: 15 s plus ten times the
/// fourth power of the attempt plus a per-job jitter below that, capped at one day.
pub fn retry_delay_seconds(job_id: i64, attempt: i32) -> (seconds: i64)
    ensures
        seconds == retry_delay_seconds_spec(job_id, attempt),
        15 <= seconds <= 24 * 60 * 60,
{
    let a: i64 = if attempt >= 1 { attempt as i64 } else { 1 };
    let wide: i128 = a as i128;
    assert(wide * wide * wide * wide <= 0x1000_0000_0000_0000_0000_0000_0000_0000) by (nonlinear_arith)
        requires
            1 <= wide <= 0x8000_0000,
    ;
    assert(wide * wide * wide * wide >= 1) by (nonlinear_arith)
        requires
            1 <= wide,
    ;
    assert(wide * wide <= 0x4000_0000_0000_0000) by (nonlinear_arith)
        requires
            1 <= wide <= 0x8000_0000,
    ;
    assert(wide * wide * wide <= 0x2000_0000_0000_0000_0000_0000) by (nonlinear_arith)
        requires
            1 <= wide <= 0x8000_0000,
    ;
    let fourth: i128 = wide * wide * wide * wide;
    let quartic: i128 = if fourth > i64::MAX as i128 { i64::MAX as i128 } else { fourth };
    let scaled: i128 = if quartic * 10 > i64::MAX as i128 { i64::MAX as i128 } else { quartic * 10 };
    let bound: u64 = if scaled >= 1 { scaled as u64 } else { 1 };
    let mixed: u64 = (#[verifier::truncate] (job_id as u64)) ^ (a as u64).wrapping_mul(0x9e37_79b9_7f4a_7c15u64);
    let jitter: u64 = mixed % bound;
    let total: i128 = 15 + scaled + jitter as i128;
    let capped: i128 = if total > 86400 { 86400 } else { total };
    capped as i64
}

/// chrono's signed duration.
#[verifier::external_type_specification]
#[verifier::external_body]
pub struct ExTimeDelta(chrono::TimeDelta);

/// What `chrono::TimeDelta::seconds` makes of a number of seconds.
pub uninterp spec fn time_delta_seconds(seconds: i64) -> chrono::TimeDelta;

/// `chrono::TimeDelta::seconds`, which panics beyond `i64::MAX / 1000` seconds either way.
/// The contract claims only that the duration is chrono's for these seconds.
#[verifier::external_body]
fn chrono_seconds(seconds: i64) -> (delta: chrono::TimeDelta)
    requires
        -(i64::MAX / 1000) <= seconds <= i64::MAX / 1000,
    ensures
        delta == time_delta_seconds(seconds),
{
    chrono::TimeDelta::seconds(seconds)
}

/// The retry backoff of a job as a chrono duration of `retry_delay_seconds` seconds.
pub fn retry_delay(job_id: i64, attempt: i32) -> (delay: chrono::TimeDelta)
    ensures
        delay == time_delta_seconds(retry_delay_seconds_spec(job_id, attempt) as i64),
{
    chrono_seconds(retry_delay_seconds(job_id, attempt))
}

/// What the queue does with a job whose handler failed.
#[derive(Debug)]
pub enum FailureTransition {
    /// Move the job to the dead letters with this message.
    DeadLetter(String),
    /// Run the job again after this many seconds, recording this message.
    Retry { delay_seconds: i64, message: String },
}

/// A permanent failure dead-letters the job; any other failure retries it after the job's
/// backoff for this attempt.
pub fn failure_transition(failure: &HandlerFailure, job_id: i64, attempt: i32) -> (t: FailureTransition)
    ensures
        failure.disposition == FailureDisposition::Permanent ==> (t matches FailureTransition::DeadLetter(m)
            && m@ == failure.message@),
        failure.disposition == FailureDisposition::Retry ==> (t matches FailureTransition::Retry { delay_seconds, message }
            && delay_seconds == retry_delay_seconds_spec(job_id, attempt) && message@ == failure.message@),
{
    match failure.disposition {
        FailureDisposition::Permanent => FailureTransition::DeadLetter(failure.message.clone()),
        FailureDisposition::Retry => FailureTransition::Retry {
            delay_seconds: retry_delay_seconds(job_id, attempt),
            message: failure.message.clone(),
        },
    }
}

/// The backoff after attempt `a` (attempts before the first count as the first) grows with
/// the fourth power of `a`: at least 15 + 10·a⁴ seconds and below 15 + 20·a⁴ seconds, for
/// any job, and never more than a day.
pub proof fn lemma_retry_delay_bounds(job_id: i64, attempt: i32)
    ensures
        ({
            let a: int = if attempt >= 1 { attempt as int } else { 1 };
            let q: int = a * a * a * a;
            let d = retry_delay_seconds_spec(job_id, attempt);
            &&& d >= (if 15 + 10 * q > 86400 { 86400 } else { 15 + 10 * q })
            &&& d < (if 15 + 20 * q > 86400 { 86401 } else { 15 + 20 * q })
            &&& 15 <= d <= 86400
        }),
{
    let a: int = if attempt >= 1 { attempt as int } else { 1 };
    let q: int = a * a * a * a;
    assert(q >= 1) by (nonlinear_arith)
        requires
            a >= 1,
            q == a * a * a * a,
    ;
    let quartic: int = if q > i64::MAX { i64::MAX as int } else { q };
    let scaled: int = if quartic * 10 > i64::MAX { i64::MAX as int } else { quartic * 10 };
    let mixed: u64 = (#[verifier::truncate] (job_id as u64)) ^ (((a * 0x9e37_79b9_7f4a_7c15) % 0x1_0000_0000_0000_0000) as u64);
    let jitter: int = (mixed as int) % scaled;
    assert(0 <= jitter < scaled);
    if q * 10 <= i64::MAX {
        assert(quartic == q);
        assert(scaled == 10 * q);
    } else {
        assert(scaled >= 86400);
    }
}

} // verus!
