use pc_health::network::collector::{NetworkCollector, NetworkInventory, GOOGLE_URL, MICROSOFT_URL};
use pc_health::network::domain::{
    AdapterSnapshot, DiagnosticArea, DiagnosticLifecycle, DnsCheck, GatewayCheck, HttpCheck,
    NetworkDiagnosticStatus, ProbeError, ProbeStatus, RouteSnapshot, RuntimeAvailability,
};
use pc_health::network::runtime::{
    apply_runtime_error, baseline_request, collect_request, focused_needed, run_probe,
    unavailable_status, NextProbe, ProbeRequest, ProbeSchedule, WaitOutcome,
    BASELINE_INTERVAL_MS,
};
use pc_health::network::service::{NetworkProbeCoordinator, NetworkProbeService};
use pc_health::network::state_machine::NetworkDiagnosticStateMachine;
use std::collections::VecDeque;
use std::sync::{Arc, Mutex};

trait RuntimeWait {
    fn elapsed_ns(&self) -> u64;
    fn wait(&mut self, duration_ms: u64) -> WaitOutcome;
}

trait StatusSink {
    fn publish(&mut self, status: NetworkDiagnosticStatus) -> bool;
    fn fail(&mut self, message: String);
}

/// Drives the library's schedule and lifecycle the way the application's
/// worker thread does, reporting each probe it starts to `observe`.
fn run_worker_observed<W: RuntimeWait, S: StatusSink, O: FnMut(&ProbeRequest, u64)>(
    coordinator: &NetworkProbeCoordinator,
    wait: &mut W,
    sink: &mut S,
    mut observe: O,
) {
    let mut machine = NetworkDiagnosticStateMachine::new();
    let mut schedule = ProbeSchedule::new();
    let mut request = schedule.startup_request();
    loop {
        observe(&request, wait.elapsed_ns() / 1_000_000);
        let result = collect_request(coordinator, &request);
        let status = match run_probe(&mut machine, &request, result) {
            Ok(status) => status,
            Err(message) => {
                sink.fail(message);
                return;
            }
        };
        if !sink.publish(status.clone()) {
            return;
        }
        match schedule.after_probe(&request, &status, wait.elapsed_ns()) {
            NextProbe::Probe(next) => request = next,
            NextProbe::Wait(duration_ms) => {
                if wait.wait(duration_ms) == WaitOutcome::Stopped
                    || !schedule.can_schedule_baseline()
                {
                    return;
                }
                request = schedule.after_wait();
            }
        }
    }
}

fn run_worker<W: RuntimeWait, S: StatusSink>(
    coordinator: &NetworkProbeCoordinator,
    wait: &mut W,
    sink: &mut S,
) {
    run_worker_observed(coordinator, wait, sink, |_: &ProbeRequest, _: u64| {});
}

struct ScriptedWait {
    elapsed_ms: u64,
    outcomes: VecDeque<WaitOutcome>,
    wait_log: Vec<u64>,
}

impl ScriptedWait {
    fn elapsed(count: usize) -> Self {
        Self {
            elapsed_ms: 0,
            outcomes: std::iter::repeat_n(WaitOutcome::Elapsed, count)
                .chain([WaitOutcome::Stopped])
                .collect(),
            wait_log: vec![],
        }
    }
}

impl RuntimeWait for ScriptedWait {
    fn elapsed_ns(&self) -> u64 {
        self.elapsed_ms * 1_000_000
    }

    fn wait(&mut self, duration_ms: u64) -> WaitOutcome {
        self.wait_log.push(duration_ms);
        let outcome = self.outcomes.pop_front().unwrap_or(WaitOutcome::Stopped);
        if outcome == WaitOutcome::Elapsed {
            self.elapsed_ms += duration_ms;
        }
        outcome
    }
}

struct Latest {
    status: NetworkDiagnosticStatus,
}

impl Latest {
    fn starting() -> Self {
        Self {
            status: NetworkDiagnosticStatus::starting(),
        }
    }
}

impl StatusSink for Latest {
    fn publish(&mut self, status: NetworkDiagnosticStatus) -> bool {
        self.status = status;
        true
    }

    fn fail(&mut self, message: String) {
        apply_runtime_error(&mut self.status, message);
    }
}

#[derive(Clone, Copy)]
enum Scenario {
    Normal,
    Unknown,
    Local,
    Gateway,
    Dns,
    External,
}

struct RecordingCollector {
    probes: Arc<Mutex<Vec<ProbeRequest>>>,
    scenario: Scenario,
    failed_endpoint: Option<&'static str>,
}

impl RecordingCollector {
    fn normal(probes: Arc<Mutex<Vec<ProbeRequest>>>) -> Self {
        Self {
            probes,
            scenario: Scenario::Normal,
            failed_endpoint: None,
        }
    }

    fn unknown_failure(probes: Arc<Mutex<Vec<ProbeRequest>>>) -> Self {
        Self {
            scenario: Scenario::Unknown,
            ..Self::normal(probes)
        }
    }

    fn scenario(scenario: Scenario) -> Self {
        Self {
            scenario,
            ..Self::normal(Arc::new(Mutex::new(vec![])))
        }
    }
}

fn dns(hostname: &str) -> DnsCheck {
    DnsCheck {
        hostname: hostname.into(),
        status: ProbeStatus::Success,
        duration_ms: 0,
        addresses: vec!["1.1.1.1".into()],
        error: None,
    }
}

fn http(url: &str) -> HttpCheck {
    HttpCheck {
        url: url.into(),
        status: ProbeStatus::Success,
        duration_ms: 0,
        status_code: Some(200),
        body_matches: Some(true),
        error: None,
    }
}

impl NetworkCollector for RecordingCollector {
    fn collector_name(&self) -> &'static str {
        "runtime-fake"
    }

    fn collect_inventory(&self) -> NetworkInventory {
        if matches!(self.scenario, Scenario::Unknown) {
            return NetworkInventory {
                adapters: vec![],
                default_routes: vec![],
                errors: vec![ProbeError {
                    stage: "inventory".into(),
                    code: "inventory_failed".into(),
                    message: "inventory unavailable".into(),
                    native_code: None,
                }],
            };
        }
        if matches!(self.scenario, Scenario::Local) {
            return NetworkInventory {
                adapters: vec![],
                default_routes: vec![],
                errors: vec![],
            };
        }
        NetworkInventory {
            adapters: vec![AdapterSnapshot {
                name: "ethernet".into(),
                friendly_name: "Ethernet".into(),
                interface_index: 1,
                if_type: 6,
                operational_status: "up".into(),
                mac_address: None,
                ipv4_addresses: vec!["192.168.0.2".into()],
            }],
            default_routes: vec![RouteSnapshot {
                interface_index: 1,
                gateway: "192.168.0.1".into(),
                route_metric: 1,
                interface_metric: 1,
                combined_metric: 2,
                adapter_is_ethernet: true,
                adapter_is_up: true,
            }],
            errors: vec![],
        }
    }

    fn check_gateway(&self, _route: Option<&RouteSnapshot>) -> GatewayCheck {
        GatewayCheck {
            status: if matches!(self.scenario, Scenario::Gateway) {
                ProbeStatus::Timeout
            } else {
                ProbeStatus::Success
            },
            duration_ms: 0,
            reply_address: None,
            round_trip_ms: None,
            error: None,
        }
    }

    fn check_dns(&self) -> Vec<DnsCheck> {
        self.probes.lock().unwrap().push(ProbeRequest::Full);
        let mut checks = vec![
            dns("www.msftconnecttest.com"),
            dns("connectivitycheck.gstatic.com"),
        ];
        if matches!(self.scenario, Scenario::Dns) {
            for check in &mut checks {
                check.status = ProbeStatus::Timeout;
                check.addresses.clear();
            }
        }
        checks
    }

    fn check_http_endpoint(&self, url: &str) -> HttpCheck {
        self.probes
            .lock()
            .unwrap()
            .push(ProbeRequest::Baseline(Some(if url == MICROSOFT_URL {
                MICROSOFT_URL
            } else {
                GOOGLE_URL
            })));
        let mut result = http(url);
        if self.failed_endpoint == Some(url) {
            result.status = ProbeStatus::Timeout;
            result.status_code = None;
            result.body_matches = None;
        }
        result
    }

    fn check_http(&self) -> Vec<HttpCheck> {
        let mut checks = vec![http(MICROSOFT_URL), http(GOOGLE_URL)];
        if matches!(self.scenario, Scenario::Dns | Scenario::External) {
            for check in &mut checks {
                check.status = ProbeStatus::Timeout;
                check.status_code = None;
                check.body_matches = None;
            }
        }
        checks
    }
}

fn coordinator(collector: RecordingCollector) -> NetworkProbeCoordinator {
    NetworkProbeCoordinator::from_service_for_test(NetworkProbeService::new(Box::new(collector)))
}

fn run(collector: RecordingCollector, waits: usize) -> NetworkDiagnosticStatus {
    let mut latest = Latest::starting();
    let mut wait = ScriptedWait::elapsed(waits);
    run_worker(&coordinator(collector), &mut wait, &mut latest);
    latest.status
}

fn run_requests(collector: RecordingCollector, waits: usize) -> Vec<(ProbeRequest, u64)> {
    let mut latest = Latest::starting();
    let mut wait = ScriptedWait::elapsed(waits);
    let mut requests = vec![];
    run_worker_observed(
        &coordinator(collector),
        &mut wait,
        &mut latest,
        |request: &ProbeRequest, elapsed_ms: u64| requests.push((request.clone(), elapsed_ms)),
    );
    requests
}

fn focused_seconds(requests: Vec<(ProbeRequest, u64)>) -> Vec<u64> {
    requests
        .into_iter()
        .filter_map(|(request, elapsed_ms)| {
            if request == ProbeRequest::Focused {
                Some(elapsed_ms / 1000)
            } else {
                None
            }
        })
        .collect()
}

#[test]
fn startup_is_full_then_external_targets_alternate_every_two_baselines() {
    let requests = run_requests(RecordingCollector::normal(Arc::new(Mutex::new(vec![]))), 5);
    assert_eq!(
        requests
            .into_iter()
            .map(|(request, _)| request)
            .collect::<Vec<_>>(),
        vec![
            ProbeRequest::Full,
            ProbeRequest::Baseline(None),
            ProbeRequest::Baseline(Some(MICROSOFT_URL)),
            ProbeRequest::Baseline(None),
            ProbeRequest::Baseline(Some(GOOGLE_URL)),
            ProbeRequest::Baseline(None),
        ]
    );
}

#[test]
fn persistent_anomaly_focuses_at_startup_and_no_more_often_than_thirty_seconds() {
    let requests = run_requests(
        RecordingCollector::unknown_failure(Arc::new(Mutex::new(vec![]))),
        4,
    );
    assert_eq!(focused_seconds(requests), vec![0, 30]);
}

#[test]
fn external_target_advances_after_a_failed_attempt() {
    let probes = Arc::new(Mutex::new(vec![]));
    let collector = RecordingCollector {
        failed_endpoint: Some(MICROSOFT_URL),
        ..RecordingCollector::normal(probes.clone())
    };
    run(collector, 4);

    let external_baselines: Vec<_> = probes
        .lock()
        .unwrap()
        .iter()
        .filter(|request| matches!(request, ProbeRequest::Baseline(Some(_))))
        .cloned()
        .collect();
    assert_eq!(
        external_baselines,
        vec![
            ProbeRequest::Baseline(Some(MICROSOFT_URL)),
            ProbeRequest::Baseline(Some(GOOGLE_URL)),
        ]
    );
}

#[test]
fn remote_incidents_need_periodic_focused_recovery_checks_but_local_incidents_do_not() {
    for scenario in [Scenario::Dns, Scenario::External, Scenario::Unknown] {
        let focused_at = focused_seconds(run_requests(RecordingCollector::scenario(scenario), 4));
        assert_eq!(focused_at, vec![0, 30]);
    }
    for scenario in [Scenario::Local, Scenario::Gateway] {
        let focused_at = focused_seconds(run_requests(RecordingCollector::scenario(scenario), 4));
        assert_eq!(focused_at, vec![0]);
    }
}

#[test]
fn stop_interrupts_wait_without_another_probe() {
    let probes = Arc::new(Mutex::new(vec![]));
    run(RecordingCollector::normal(probes.clone()), 0);
    assert_eq!(*probes.lock().unwrap(), vec![ProbeRequest::Full]);
}

#[test]
fn automatic_http_requests_stay_within_hourly_limits() {
    let normal = run_requests(RecordingCollector::normal(Arc::new(Mutex::new(vec![]))), 360);
    let persistent = run_requests(
        RecordingCollector::unknown_failure(Arc::new(Mutex::new(vec![]))),
        360,
    );
    let normal_http = normal
        .iter()
        .filter(|(request, _)| matches!(request, ProbeRequest::Baseline(Some(_))))
        .count();
    let persistent_http: usize = persistent
        .iter()
        .map(|(request, elapsed_ms)| match request {
            ProbeRequest::Baseline(Some(_)) => 1,
            ProbeRequest::Focused if *elapsed_ms != 0 => 2,
            _ => 0,
        })
        .sum();

    // Startup full and its immediate focused refinement are outside steady state.
    assert_eq!(normal_http, 180);
    assert_eq!(persistent_http, 420);
}

#[test]
fn collection_failure_is_exposed_and_stops_the_worker() {
    let coordinator = NetworkProbeCoordinator::failed_for_test("collector exploded");
    let mut latest = Latest::starting();
    let mut wait = ScriptedWait::elapsed(5);
    run_worker(&coordinator, &mut wait, &mut latest);
    let status = latest.status;
    assert_eq!(status.availability, RuntimeAvailability::Error);
    assert_eq!(status.error.as_ref().unwrap().stage, "runtime");
    assert_eq!(status.error.as_ref().unwrap().code, "runtime_failed");
    assert_eq!(status.error.as_ref().unwrap().message, "collector exploded");
    assert_eq!(status.error.as_ref().unwrap().native_code, None);
    assert!(wait.wait_log.is_empty());
}

#[test]
fn every_wait_is_one_baseline_interval() {
    let mut latest = Latest::starting();
    let mut wait = ScriptedWait::elapsed(6);
    run_worker(
        &coordinator(RecordingCollector::scenario(Scenario::Unknown)),
        &mut wait,
        &mut latest,
    );
    assert_eq!(wait.wait_log.len(), 7);
    assert!(wait.wait_log.iter().all(|ms| *ms == BASELINE_INTERVAL_MS));
    assert_eq!(latest.status.availability, RuntimeAvailability::Running);
}

#[test]
fn a_refused_publication_stops_the_worker() {
    struct Refusing {
        published: usize,
    }
    impl StatusSink for Refusing {
        fn publish(&mut self, _status: NetworkDiagnosticStatus) -> bool {
            self.published += 1;
            false
        }
        fn fail(&mut self, _message: String) {}
    }
    let mut sink = Refusing { published: 0 };
    let mut wait = ScriptedWait::elapsed(5);
    run_worker(
        &coordinator(RecordingCollector::normal(Arc::new(Mutex::new(vec![])))),
        &mut wait,
        &mut sink,
    );
    assert_eq!(sink.published, 1);
    assert!(wait.wait_log.is_empty());
}

#[test]
fn baseline_requests_name_an_endpoint_on_every_second_count() {
    assert_eq!(baseline_request(1, 0), ProbeRequest::Baseline(None));
    assert_eq!(baseline_request(2, 0), ProbeRequest::Baseline(Some(MICROSOFT_URL)));
    assert_eq!(baseline_request(4, 1), ProbeRequest::Baseline(Some(GOOGLE_URL)));
    assert_eq!(baseline_request(7, 1), ProbeRequest::Baseline(None));
}

#[test]
fn focus_follows_suspicion_and_remote_incidents() {
    let mut status = NetworkDiagnosticStatus::starting();
    assert!(!focused_needed(&status));
    status.lifecycle = Some(DiagnosticLifecycle::Suspected);
    assert!(focused_needed(&status));
    status.lifecycle = Some(DiagnosticLifecycle::Incident);
    status.suspected_area = Some(DiagnosticArea::GatewayOrLocal);
    assert!(!focused_needed(&status));
    status.suspected_area = Some(DiagnosticArea::Dns);
    assert!(focused_needed(&status));
    status.lifecycle = Some(DiagnosticLifecycle::Resolved);
    assert!(!focused_needed(&status));
}

#[test]
fn schedule_waits_out_the_focused_cooldown() {
    let mut schedule = ProbeSchedule::new();
    let mut suspected = NetworkDiagnosticStatus::starting();
    suspected.lifecycle = Some(DiagnosticLifecycle::Suspected);

    assert_eq!(
        schedule.after_probe(&ProbeRequest::Full, &suspected, 0),
        NextProbe::Probe(ProbeRequest::Focused)
    );
    assert_eq!(
        schedule.after_probe(&ProbeRequest::Focused, &suspected, 0),
        NextProbe::Wait(BASELINE_INTERVAL_MS)
    );
    let request = schedule.after_wait();
    assert_eq!(
        schedule.after_probe(&request, &suspected, 10_000_000_000),
        NextProbe::Wait(BASELINE_INTERVAL_MS)
    );
    let request = schedule.after_wait();
    assert_eq!(
        schedule.after_probe(&request, &suspected, 29_999_999_999),
        NextProbe::Wait(BASELINE_INTERVAL_MS)
    );
    let request = schedule.after_wait();
    assert_eq!(
        schedule.after_probe(&request, &suspected, 30_000_000_000),
        NextProbe::Probe(ProbeRequest::Focused)
    );
}

#[test]
fn unavailable_runtime_reports_unavailable_without_observation() {
    let status = unavailable_status();
    assert_eq!(status.availability, RuntimeAvailability::Unavailable);
    assert_eq!(status.lifecycle, None);
    assert_eq!(status.observed_at, None);
}
