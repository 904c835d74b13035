use vstd::prelude::*;
use std::sync::{Arc, Mutex, MutexGuard};
use std::time::{Duration, Instant, SystemTime};
use crate::text::{opt_text, owned};
use super::collector::{
    NetworkCollector, NetworkInventory, GOOGLE_HOSTNAME, GOOGLE_URL, MICROSOFT_HOSTNAME,
    MICROSOFT_URL,
};
use super::domain::{
    chosen_route, select_default_route, DnsCheck, GatewayCheck, HttpCheck, NetworkProbeSnapshot,
    RouteSnapshot,
};
use super::unsupported::{
    unsupported_dns, unsupported_error, unsupported_gateway, unsupported_http, UnsupportedCollector,
};

verus! {

#[verifier::external_type_specification]
#[verifier::external_body]
pub struct ExInstant(std::time::Instant);

#[verifier::external_type_specification]
#[verifier::external_body]
pub struct ExSystemTime(std::time::SystemTime);

#[verifier::external_type_specification]
#[verifier::external_body]
#[verifier::reject_recursive_types(T)]
pub struct ExMutex<T: ?Sized>(std::sync::Mutex<T>);

#[verifier::external_type_specification]
#[verifier::external_body]
#[verifier::reject_recursive_types(T)]
pub struct ExMutexGuard<'a, T: ?Sized + 'a>(std::sync::MutexGuard<'a, T>);

/// `Mutex::new`: wraps a value in a fresh, unlocked mutex. Nothing about
/// the mutex is used by the proofs, so nothing is stated of it.
pub assume_specification<T>[ std::sync::Mutex::<T>::new ](t: T) -> Mutex<T>;

/// Calls `std::time::SystemTime::now`. The reading depends on the clock, so
/// nothing is stated of it.
#[verifier::external_body]
fn clock_now() -> SystemTime {
    SystemTime::now()
}

/// Calls `SystemTime::duration_since` with `UNIX_EPOCH`: the time since the
/// Unix epoch, or `None` (the call's error) when the clock reads earlier.
/// Which one comes back depends on the clock, so nothing is stated of it.
#[verifier::external_body]
fn since_unix_epoch(time: &SystemTime) -> Option<Duration> {
    match time.duration_since(std::time::UNIX_EPOCH) {
        Ok(elapsed) => Some(elapsed),
        Err(_) => None,
    }
}

/// Calls `Duration::as_secs`, the whole seconds of a duration. The duration
/// is opaque to the proofs, so nothing is stated of the result.
#[verifier::external_body]
fn whole_seconds(duration: &Duration) -> u64 {
    duration.as_secs()
}

/// Calls `Duration::subsec_nanos`, the nanoseconds past the whole seconds,
/// which its documentation bounds below one billion; only that is stated.
#[verifier::external_body]
fn subsec_nanoseconds(duration: &Duration) -> (r: u32)
    ensures
        r < 1_000_000_000,
{
    duration.subsec_nanos()
}

/// The RFC 3339 text that chrono gives for the UTC time `secs` seconds and
/// `nanos` nanoseconds after the Unix epoch, or `None` where chrono has no
/// date for that time.
pub uninterp spec fn rfc3339_text(secs: i64, nanos: u32) -> Option<Seq<char>>;

/// Calls chrono's `DateTime::<Utc>::from_timestamp(secs, nanos)`, which
/// gives `None` out of its range, and renders the time with
/// `DateTime::to_rfc3339`, whose write into a `String` cannot fail. The
/// contract only names the result (`rfc3339_text`); what the text looks like
/// is chrono's formatting and is not stated.
#[verifier::external_body]
pub(crate) fn rfc3339_at(secs: i64, nanos: u32) -> (r: Option<String>)
    ensures
        opt_text(r) == rfc3339_text(secs, nanos),
{
    match chrono::DateTime::<chrono::Utc>::from_timestamp(secs, nanos) {
        Some(time) => Some(time.to_rfc3339()),
        None => None,
    }
}

/// The current UTC time in RFC 3339 form, read as `chrono::Utc::now` reads
/// it: the system clock's time since the Unix epoch, in whole seconds and
/// nanoseconds. `None` when the clock reads before the epoch or later than
/// chrono can date.
fn current_time_rfc3339() -> (r: Option<String>)
    ensures
        r is Some ==> exists|secs: i64, nanos: u32|
            nanos < 1_000_000_000 && #[trigger] rfc3339_text(secs, nanos) == opt_text(r),
{
    let now = clock_now();
    match since_unix_epoch(&now) {
        None => None,
        Some(elapsed) => {
            let secs = whole_seconds(&elapsed);
            let nanos = subsec_nanoseconds(&elapsed);
            if secs > i64::MAX as u64 {
                None
            } else {
                rfc3339_at(secs as i64, nanos)
            }
        },
    }
}

/// A snapshot's time stamp: empty, or the RFC 3339 text of some UTC time.
pub open spec fn stamped(at: Seq<char>) -> bool {
    at.len() > 0 ==> exists|secs: i64, nanos: u32|
        nanos < 1_000_000_000 && #[trigger] rfc3339_text(secs, nanos) == Some(at)
}

/// The time a snapshot is stamped with: the current UTC time, or an empty
/// text when the clock cannot be read as one.
fn snapshot_time() -> (r: String)
    ensures
        stamped(r@),
{
    match current_time_rfc3339() {
        Some(text) => text,
        None => String::new(),
    }
}

/// Calls `std::time::Instant::now`. Nothing is stated of the result, which
/// depends on the clock.
#[verifier::external_body]
fn start_timer() -> Instant {
    Instant::now()
}

/// Calls `Instant::elapsed`. The result depends on the clock, so nothing is
/// stated of it.
#[verifier::external_body]
fn elapsed_since(started: &Instant) -> Duration {
    started.elapsed()
}

/// Calls `Duration::as_millis`, the whole milliseconds of a duration. The
/// duration is opaque to the proofs, so nothing is stated of the result.
#[verifier::external_body]
fn whole_millis(duration: &Duration) -> u128 {
    duration.as_millis()
}

/// A millisecond count as a `u64`, saturating at the largest one.
pub fn saturating_millis(millis: u128) -> (r: u64)
    ensures
        r == (if millis > u64::MAX {
            u64::MAX
        } else {
            millis as u64
        }),
{
    if millis > u64::MAX as u128 {
        u64::MAX
    } else {
        millis as u64
    }
}

/// Milliseconds since `started`, saturating at the largest `u64`.
fn duration_ms(started: &Instant) -> u64 {
    saturating_millis(whole_millis(&elapsed_since(started)))
}

/// What a probe round's snapshot is made of: the inventory's adapters,
/// routes and errors, the route chosen among those routes, the checks as
/// given, and the collector's name, the time and the duration.
pub open spec fn snapshot_from(
    s: NetworkProbeSnapshot,
    inventory: NetworkInventory,
    gateway_check: GatewayCheck,
    dns_checks: Seq<DnsCheck>,
    http_checks: Seq<HttpCheck>,
    collector: Seq<char>,
    collected_at: Seq<char>,
    duration_ms: u64,
) -> bool {
    &&& s.collected_at@ == collected_at
    &&& s.collector@ == collector
    &&& s.duration_ms == duration_ms
    &&& s.adapters@ == inventory.adapters@
    &&& s.default_routes@ == inventory.default_routes@
    &&& s.selected_route == chosen_route(inventory.default_routes@)
    &&& s.gateway_check == gateway_check
    &&& s.dns_checks@ == dns_checks
    &&& s.http_checks@ == http_checks
    &&& s.errors@ == inventory.errors@
}

/// Puts a probe round's snapshot together from the collector's answers.
pub fn assemble(
    inventory: NetworkInventory,
    gateway_check: GatewayCheck,
    dns_checks: Vec<DnsCheck>,
    http_checks: Vec<HttpCheck>,
    collector: &str,
    collected_at: String,
    duration_ms: u64,
) -> (r: NetworkProbeSnapshot)
    ensures
        snapshot_from(
            r,
            inventory,
            gateway_check,
            dns_checks@,
            http_checks@,
            collector@,
            collected_at@,
            duration_ms,
        ),
{
    let selected_route = select_default_route(inventory.default_routes.as_slice());
    let NetworkInventory { adapters, default_routes, errors } = inventory;
    NetworkProbeSnapshot {
        collected_at,
        collector: owned(collector),
        duration_ms,
        adapters,
        default_routes,
        selected_route,
        gateway_check,
        dns_checks,
        http_checks,
        errors,
    }
}

/// The snapshot of a round on a platform without native probes: no
/// adapters or routes, the inventory's unsupported error, and every check
/// that the round runs reporting that it is unsupported. The time and the
/// duration are the clock's.
pub open spec fn unsupported_snapshot(
    s: NetworkProbeSnapshot,
    http_url: Option<&str>,
    full: bool,
) -> bool {
    &&& s.collector@ == "unsupported"@
    &&& s.adapters@.len() == 0
    &&& s.default_routes@.len() == 0
    &&& s.selected_route is None
    &&& s.errors@.len() == 1
    &&& s.errors@[0]@ == unsupported_error("inventory"@)
    &&& unsupported_gateway(s.gateway_check)
    &&& full ==> {
        &&& s.dns_checks@.len() == 2
        &&& unsupported_dns(s.dns_checks@[0], MICROSOFT_HOSTNAME@)
        &&& unsupported_dns(s.dns_checks@[1], GOOGLE_HOSTNAME@)
        &&& s.http_checks@.len() == 2
        &&& unsupported_http(s.http_checks@[0], MICROSOFT_URL@)
        &&& unsupported_http(s.http_checks@[1], GOOGLE_URL@)
    }
    &&& !full ==> {
        &&& s.dns_checks@.len() == 0
        &&& match http_url {
            Some(url) => s.http_checks@.len() == 1 && unsupported_http(s.http_checks@[0], url@),
            None => s.http_checks@.len() == 0,
        }
    }
}

/// Where a service's probes come from.
enum ProbeBackend {
    /// The portable collector, whose every probe reports that the platform
    /// is unsupported.
    Portable(UnsupportedCollector),
    /// A collector handed in by the caller.
    Given(Box<dyn NetworkCollector>),
}

/// Runs a probe round through a collector.
pub struct NetworkProbeService {
    backend: ProbeBackend,
}

impl NetworkProbeService {
    /// `name` is the name of the service's collector.
    pub closed spec fn gives_name(&self, name: Seq<char>) -> bool {
        match self.backend {
            ProbeBackend::Portable(c) => c.gives_name(name),
            ProbeBackend::Given(c) => c.gives_name(name),
        }
    }

    /// `inventory` is an answer the service's collector may give to an
    /// inventory request.
    pub closed spec fn gives_inventory(&self, inventory: NetworkInventory) -> bool {
        match self.backend {
            ProbeBackend::Portable(c) => c.gives_inventory(inventory),
            ProbeBackend::Given(c) => c.gives_inventory(inventory),
        }
    }

    /// `check` is an answer the service's collector may give to a gateway
    /// check handed `route`.
    pub closed spec fn gives_gateway_check(
        &self,
        route: Option<RouteSnapshot>,
        check: GatewayCheck,
    ) -> bool {
        match self.backend {
            ProbeBackend::Portable(c) => c.gives_gateway_check(route, check),
            ProbeBackend::Given(c) => c.gives_gateway_check(route, check),
        }
    }

    /// `checks` is an answer the service's collector may give to the DNS
    /// checks.
    pub closed spec fn gives_dns_checks(&self, checks: Seq<DnsCheck>) -> bool {
        match self.backend {
            ProbeBackend::Portable(c) => c.gives_dns_checks(checks),
            ProbeBackend::Given(c) => c.gives_dns_checks(checks),
        }
    }

    /// `check` is an answer the service's collector may give to a check of
    /// the HTTP endpoint `url`.
    pub closed spec fn gives_http_check(&self, url: Seq<char>, check: HttpCheck) -> bool {
        match self.backend {
            ProbeBackend::Portable(c) => c.gives_http_check(url, check),
            ProbeBackend::Given(c) => c.gives_http_check(url, check),
        }
    }

    /// `checks` is an answer the service's collector may give to the HTTP
    /// checks.
    pub closed spec fn gives_http_checks(&self, checks: Seq<HttpCheck>) -> bool {
        match self.backend {
            ProbeBackend::Portable(c) => c.gives_http_checks(checks),
            ProbeBackend::Given(c) => c.gives_http_checks(checks),
        }
    }

    /// `s` is a round of this service: put together by `assemble` from the
    /// collector's own answers and name, stamped with the time of the round
    /// (empty when the clock could not be read), where the gateway check was handed
    /// the route chosen among the inventory's default routes; a full round
    /// holds the collector's DNS and HTTP answers, a baseline round no DNS
    /// check and, when it was asked for an endpoint, exactly the check of
    /// that endpoint.
    pub open spec fn round(&self, s: NetworkProbeSnapshot, http_url: Option<&str>, full: bool) -> bool {
        exists|
            inventory: NetworkInventory,
            gateway_check: GatewayCheck,
            dns_checks: Seq<DnsCheck>,
            http_checks: Seq<HttpCheck>,
            name: Seq<char>,
            collected_at: Seq<char>,
            duration_ms: u64,
        |
            #[trigger] snapshot_from(
                s,
                inventory,
                gateway_check,
                dns_checks,
                http_checks,
                name,
                collected_at,
                duration_ms,
            ) && stamped(collected_at) && self.gives_name(name) && self.gives_inventory(inventory)
                && self.gives_gateway_check(chosen_route(inventory.default_routes@), gateway_check)
                && (full ==> self.gives_dns_checks(dns_checks) && self.gives_http_checks(http_checks))
                && (!full ==> dns_checks.len() == 0 && match http_url {
                Some(url) => http_checks.len() == 1 && http_checks[0].url@ == url@
                    && self.gives_http_check(url@, http_checks[0]),
                None => http_checks.len() == 0,
            })
    }

    /// The service runs the portable collector.
    pub closed spec fn is_portable(&self) -> bool {
        self.backend is Portable
    }

    /// A service around the given collector.
    pub fn new(collector: Box<dyn NetworkCollector>) -> (r: Self)
        ensures
            !r.is_portable(),
    {
        NetworkProbeService { backend: ProbeBackend::Given(collector) }
    }

    /// The service for a platform without native probes: every probe
    /// reports that it is unsupported. (Where native probes exist, the
    /// application builds its service with `new` around its own collector.)
    pub fn platform() -> (r: Self)
        ensures
            r.is_portable(),
    {
        NetworkProbeService { backend: ProbeBackend::Portable(UnsupportedCollector) }
    }

    /// A full probe round.
    pub fn collect(&self) -> (r: NetworkProbeSnapshot)
        ensures
            self.round(r, None, true),
            self.is_portable() ==> unsupported_snapshot(r, None, true),
    {
        self.collect_full()
    }

    /// A full probe round: inventory, gateway, both DNS names and both HTTP
    /// endpoints.
    pub fn collect_full(&self) -> (r: NetworkProbeSnapshot)
        ensures
            self.round(r, None, true),
            self.is_portable() ==> unsupported_snapshot(r, None, true),
    {
        self.collect_with(None, true)
    }

    /// A baseline round: inventory, gateway, and the given HTTP endpoint if
    /// any.
    pub fn collect_baseline(&self, http_url: Option<&str>) -> (r: NetworkProbeSnapshot)
        ensures
            self.round(r, http_url, false),
            self.is_portable() ==> unsupported_snapshot(r, http_url, false),
    {
        self.collect_with(http_url, false)
    }

    fn collect_with(&self, http_url: Option<&str>, full: bool) -> (r: NetworkProbeSnapshot)
        ensures
            self.round(r, http_url, full),
            self.is_portable() ==> unsupported_snapshot(r, http_url, full),
    {
        let started = start_timer();
        match &self.backend {
            ProbeBackend::Portable(collector) => {
                let inventory = collector.collect_inventory();
                let selected_route = select_default_route(inventory.default_routes.as_slice());
                let gateway_check = collector.check_gateway(selected_route.as_ref());
                let dns_checks = if full {
                    collector.check_dns()
                } else {
                    Vec::new()
                };
                let http_checks = if full {
                    collector.check_http()
                } else {
                    match http_url {
                        Some(url) => {
                            let mut checks = Vec::new();
                            checks.push(collector.check_http_endpoint(url));
                            checks
                        },
                        None => Vec::new(),
                    }
                };
                let name = collector.collector_name();
                assemble(
                    inventory,
                    gateway_check,
                    dns_checks,
                    http_checks,
                    name,
                    snapshot_time(),
                    duration_ms(&started),
                )
            },
            ProbeBackend::Given(collector) => {
                let inventory = collector.collect_inventory();
                let selected_route = select_default_route(inventory.default_routes.as_slice());
                let gateway_check = collector.check_gateway(selected_route.as_ref());
                let dns_checks = if full {
                    collector.check_dns()
                } else {
                    Vec::new()
                };
                let http_checks = if full {
                    collector.check_http()
                } else {
                    match http_url {
                        Some(url) => {
                            let mut checks = Vec::new();
                            checks.push(collector.check_http_endpoint(url));
                            checks
                        },
                        None => Vec::new(),
                    }
                };
                let name = collector.collector_name();
                assemble(
                    inventory,
                    gateway_check,
                    dns_checks,
                    http_checks,
                    name,
                    snapshot_time(),
                    duration_ms(&started),
                )
            },
        }
    }
}

/// Calls `Mutex::lock`; a poisoned lock comes back as `None`. Which of the
/// two happens depends on the other users of the lock, so nothing is
/// stated of it.
#[verifier::external_body]
fn lock_rounds<'a>(rounds: &'a Mutex<()>) -> Option<MutexGuard<'a, ()>> {
    match rounds.lock() {
        Ok(guard) => Some(guard),
        Err(_) => None,
    }
}

/// Serializes probe rounds: the runtime and on-demand requests share one
/// service, and a round runs only while it holds the coordinator's lock, so
/// at most one round runs at a time. A coordinator made to fail answers
/// every request with its failure and collects nothing.
#[derive(Clone)]
pub struct NetworkProbeCoordinator {
    service: Arc<NetworkProbeService>,
    rounds: Arc<Mutex<()>>,
    failure: Option<String>,
}

/// The message returned when the lock is poisoned.
pub open spec fn lock_failed_message() -> Seq<char> {
    "network probe coordinator lock failed"@
}

impl NetworkProbeCoordinator {
    /// The failure this coordinator answers every request with, if any.
    pub closed spec fn failure(&self) -> Option<Seq<char>> {
        match self.failure {
            Some(m) => Some(m@),
            None => None,
        }
    }

    /// The service whose rounds this coordinator runs.
    pub closed spec fn service(&self) -> NetworkProbeService {
        *self.service
    }

    pub fn new(service: NetworkProbeService) -> (r: Self)
        ensures
            r.failure() is None,
            r.service() == service,
    {
        NetworkProbeCoordinator {
            service: Arc::new(service),
            rounds: Arc::new(Mutex::new(())),
            failure: None,
        }
    }

    /// The coordinator around the portable service.
    pub fn platform() -> (r: Self)
        ensures
            r.failure() is None,
            r.service().is_portable(),
    {
        Self::new(NetworkProbeService::platform())
    }

    /// A coordinator around the given service, for exercising the runtime.
    pub fn from_service_for_test(service: NetworkProbeService) -> (r: Self)
        ensures
            r.failure() is None,
            r.service() == service,
    {
        Self::new(service)
    }

    /// A coordinator whose every request fails with `message`.
    pub fn failed_for_test(message: &str) -> (r: Self)
        ensures
            r.failure() == Some(message@),
            r.service().is_portable(),
    {
        NetworkProbeCoordinator {
            service: Arc::new(NetworkProbeService::platform()),
            rounds: Arc::new(Mutex::new(())),
            failure: Some(owned(message)),
        }
    }

    /// A round of the service, of the kind that `url` and `full` name.
    pub open spec fn service_round(&self, s: NetworkProbeSnapshot, url: Option<&str>, full: bool) -> bool {
        self.service().round(s, url, full) && (self.service().is_portable() ==> unsupported_snapshot(
            s,
            url,
            full,
        ))
    }

    /// Runs a round of the service while `guard`, the round lock's outcome,
    /// is held: the round when the lock was taken, the lock's error when it
    /// was poisoned.
    pub fn round_under(
        &self,
        guard: Option<MutexGuard<'_, ()>>,
        url: Option<&str>,
        full: bool,
    ) -> (r: Result<NetworkProbeSnapshot, String>)
        ensures
            guard is Some ==> (r matches Ok(s) && self.service_round(s, url, full)),
            guard is None ==> (r matches Err(e) && e@ == lock_failed_message()),
    {
        match guard {
            Some(_held) => {
                if full {
                    Ok(self.service.collect_full())
                } else {
                    Ok(self.service.collect_baseline(url))
                }
            },
            None => Err(owned("network probe coordinator lock failed")),
        }
    }

    /// A full round of the service, run under the lock.
    pub fn collect_full(&self) -> (r: Result<NetworkProbeSnapshot, String>)
        ensures
            match self.failure() {
                Some(m) => r matches Err(e) && e@ == m,
                None => match r {
                    Ok(s) => self.service_round(s, None, true),
                    Err(e) => e@ == lock_failed_message(),
                },
            },
    {
        if let Some(message) = &self.failure {
            return Err(message.clone());
        }
        self.round_under(lock_rounds(&self.rounds), None, true)
    }

    /// A baseline round of the service, run under the lock.
    pub fn collect_baseline(&self, url: Option<&str>) -> (r: Result<NetworkProbeSnapshot, String>)
        ensures
            match self.failure() {
                Some(m) => r matches Err(e) && e@ == m,
                None => match r {
                    Ok(s) => self.service_round(s, url, false),
                    Err(e) => e@ == lock_failed_message(),
                },
            },
    {
        if let Some(message) = &self.failure {
            return Err(message.clone());
        }
        self.round_under(lock_rounds(&self.rounds), url, false)
    }
}

} // verus!
