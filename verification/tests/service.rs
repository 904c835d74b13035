use pc_health::network::collector::{NetworkCollector, NetworkInventory, GOOGLE_URL, MICROSOFT_URL};
use pc_health::network::domain::{
    DnsCheck, GatewayCheck, HttpCheck, ProbeError, ProbeStatus, RouteSnapshot,
};
use pc_health::network::runtime::{collect_request, ProbeRequest};
use pc_health::network::service::{assemble, NetworkProbeCoordinator, NetworkProbeService};
use std::sync::{Arc, Mutex};

struct FakeCollector {
    gateway_route: Arc<Mutex<Option<RouteSnapshot>>>,
    http_calls: Arc<Mutex<Vec<String>>>,
}

impl FakeCollector {
    fn recording(http_calls: Arc<Mutex<Vec<String>>>) -> Self {
        Self {
            gateway_route: Arc::new(Mutex::new(None)),
            http_calls,
        }
    }

    fn http_check(url: &str) -> HttpCheck {
        HttpCheck {
            url: url.into(),
            status: ProbeStatus::Success,
            duration_ms: 0,
            status_code: Some(200),
            body_matches: Some(true),
            error: None,
        }
    }
}

impl Default for FakeCollector {
    fn default() -> Self {
        Self::recording(Arc::new(Mutex::new(vec![])))
    }
}

impl NetworkCollector for FakeCollector {
    fn collector_name(&self) -> &'static str {
        "fake"
    }

    fn collect_inventory(&self) -> NetworkInventory {
        NetworkInventory {
            adapters: vec![],
            default_routes: vec![RouteSnapshot {
                interface_index: 7,
                gateway: "192.168.0.1".into(),
                route_metric: 10,
                interface_metric: 5,
                combined_metric: 15,
                adapter_is_ethernet: true,
                adapter_is_up: true,
            }],
            errors: vec![ProbeError {
                stage: "adapters".into(),
                code: "partial_failure".into(),
                message: "one adapter could not be read".into(),
                native_code: Some(13),
            }],
        }
    }

    fn check_gateway(&self, route: Option<&RouteSnapshot>) -> GatewayCheck {
        *self.gateway_route.lock().unwrap() = route.cloned();
        GatewayCheck {
            status: ProbeStatus::NotRun,
            duration_ms: 0,
            reply_address: None,
            round_trip_ms: None,
            error: None,
        }
    }

    fn check_dns(&self) -> Vec<DnsCheck> {
        ["microsoft", "google"]
            .into_iter()
            .map(|hostname| DnsCheck {
                hostname: hostname.into(),
                status: ProbeStatus::Success,
                duration_ms: 0,
                addresses: vec![],
                error: None,
            })
            .collect()
    }

    fn check_http_endpoint(&self, url: &str) -> HttpCheck {
        self.http_calls.lock().unwrap().push(url.into());
        Self::http_check(url)
    }

    fn check_http(&self) -> Vec<HttpCheck> {
        [MICROSOFT_URL, GOOGLE_URL]
            .into_iter()
            .map(|url| {
                self.http_calls.lock().unwrap().push(url.into());
                Self::http_check(url)
            })
            .collect()
    }
}

#[test]
fn preserves_partial_results_and_passes_selected_route_to_gateway_check() {
    let gateway_route = Arc::new(Mutex::new(None));
    let service = NetworkProbeService::new(Box::new(FakeCollector {
        gateway_route: gateway_route.clone(),
        http_calls: Arc::new(Mutex::new(vec![])),
    }));

    let snapshot = service.collect();

    assert_eq!(snapshot.collector, "fake");
    assert_eq!(snapshot.errors[0].stage, "adapters");
    assert_eq!(snapshot.gateway_check.status, ProbeStatus::NotRun);
    assert_eq!(snapshot.selected_route.as_ref().unwrap().interface_index, 7);
    assert_eq!(
        gateway_route
            .lock()
            .unwrap()
            .as_ref()
            .unwrap()
            .interface_index,
        7
    );
}

#[test]
fn baseline_collects_inventory_gateway_and_only_requested_http_endpoint() {
    let calls = Arc::new(Mutex::new(vec![]));
    let service = NetworkProbeService::new(Box::new(FakeCollector::recording(calls.clone())));

    let snapshot = service.collect_baseline(Some(MICROSOFT_URL));

    assert!(snapshot.dns_checks.is_empty());
    assert_eq!(snapshot.http_checks.len(), 1);
    assert_eq!(snapshot.http_checks[0].url, MICROSOFT_URL);
    assert_eq!(*calls.lock().unwrap(), vec![MICROSOFT_URL]);
}

#[test]
fn full_probe_keeps_both_dns_and_http_targets() {
    let service = NetworkProbeService::new(Box::new(FakeCollector::default()));

    let snapshot = service.collect_full();

    assert_eq!(snapshot.dns_checks.len(), 2);
    assert_eq!(snapshot.http_checks.len(), 2);
}

#[test]
fn baseline_without_endpoint_runs_no_http_check() {
    let calls = Arc::new(Mutex::new(vec![]));
    let service = NetworkProbeService::new(Box::new(FakeCollector::recording(calls.clone())));

    let snapshot = service.collect_baseline(None);

    assert!(snapshot.http_checks.is_empty());
    assert!(calls.lock().unwrap().is_empty());
}

#[test]
fn snapshots_carry_an_rfc3339_collection_time() {
    let service = NetworkProbeService::new(Box::new(FakeCollector::default()));

    let snapshot = service.collect_full();

    assert!(snapshot.collected_at.contains('T'));
    assert!(chrono::DateTime::parse_from_rfc3339(&snapshot.collected_at).is_ok());
}

#[test]
fn coordinator_collects_through_its_service() {
    let calls = Arc::new(Mutex::new(vec![]));
    let coordinator = NetworkProbeCoordinator::new(NetworkProbeService::new(Box::new(
        FakeCollector::recording(calls.clone()),
    )));

    let full = coordinator.collect_full().unwrap();
    let baseline = coordinator.collect_baseline(Some(GOOGLE_URL)).unwrap();

    assert_eq!(full.http_checks.len(), 2);
    assert_eq!(baseline.http_checks[0].url, GOOGLE_URL);
}

#[test]
fn failing_coordinator_answers_with_its_failure() {
    let coordinator = NetworkProbeCoordinator::failed_for_test("collector exploded");

    assert_eq!(coordinator.collect_full(), Err("collector exploded".to_string()));
    assert_eq!(
        coordinator.collect_baseline(None),
        Err("collector exploded".to_string())
    );
}

#[test]
fn portable_platform_reports_every_probe_as_unsupported() {
    let snapshot = NetworkProbeService::platform().collect_full();

    assert_eq!(snapshot.gateway_check.status, ProbeStatus::Unsupported);
    assert!(snapshot.dns_checks.iter().all(|check| check.status == ProbeStatus::Unsupported));
    assert!(snapshot.http_checks.iter().all(|check| check.status == ProbeStatus::Unsupported));
}

#[test]
fn portable_platform_snapshot_is_exactly_the_unsupported_one() {
    let full = NetworkProbeService::platform().collect_full();
    assert_eq!(full.collector, "unsupported");
    assert!(full.adapters.is_empty() && full.default_routes.is_empty());
    assert_eq!(full.selected_route, None);
    assert_eq!(full.errors.len(), 1);
    assert_eq!(full.errors[0].stage, "inventory");
    assert_eq!(full.errors[0].code, "platform_unsupported");
    assert_eq!(full.errors[0].message, "network probes are only available on Windows");
    let hosts: Vec<_> = full.dns_checks.iter().map(|check| check.hostname.as_str()).collect();
    assert_eq!(hosts, vec!["www.msftconnecttest.com", "connectivitycheck.gstatic.com"]);
    let urls: Vec<_> = full.http_checks.iter().map(|check| check.url.as_str()).collect();
    assert_eq!(urls, vec![MICROSOFT_URL, GOOGLE_URL]);

    let baseline = NetworkProbeService::platform().collect_baseline(Some(GOOGLE_URL));
    assert!(baseline.dns_checks.is_empty());
    assert_eq!(baseline.http_checks.len(), 1);
    assert_eq!(baseline.http_checks[0].url, GOOGLE_URL);
    assert_eq!(baseline.http_checks[0].status, ProbeStatus::Unsupported);
}

#[test]
fn assemble_keeps_the_answers_and_chooses_the_route() {
    let slow = RouteSnapshot {
        interface_index: 3,
        gateway: "10.0.0.1".into(),
        route_metric: 50,
        interface_metric: 50,
        combined_metric: 100,
        adapter_is_ethernet: false,
        adapter_is_up: true,
    };
    let wired = RouteSnapshot {
        interface_index: 7,
        gateway: "192.168.0.1".into(),
        combined_metric: 15,
        adapter_is_ethernet: true,
        ..slow.clone()
    };
    let inventory = NetworkInventory {
        adapters: vec![],
        default_routes: vec![slow.clone(), wired.clone()],
        errors: vec![],
    };
    let gateway = GatewayCheck {
        status: ProbeStatus::NotRun,
        duration_ms: 0,
        reply_address: None,
        round_trip_ms: None,
        error: None,
    };
    let snapshot = assemble(
        inventory,
        gateway,
        vec![],
        vec![FakeCollector::http_check(MICROSOFT_URL)],
        "fake",
        "2024-01-01T00:00:00+00:00".into(),
        42,
    );
    assert_eq!(snapshot.collector, "fake");
    assert_eq!(snapshot.collected_at, "2024-01-01T00:00:00+00:00");
    assert_eq!(snapshot.duration_ms, 42);
    assert_eq!(snapshot.default_routes, vec![slow, wired.clone()]);
    assert_eq!(snapshot.selected_route, Some(wired));
    assert_eq!(snapshot.gateway_check.status, ProbeStatus::NotRun);
    assert_eq!(snapshot.http_checks.len(), 1);
}

#[test]
fn each_request_asks_for_its_own_round() {
    let calls = Arc::new(Mutex::new(vec![]));
    let coordinator = NetworkProbeCoordinator::new(NetworkProbeService::new(Box::new(
        FakeCollector::recording(calls.clone()),
    )));

    let focused = collect_request(&coordinator, &ProbeRequest::Focused).unwrap();
    let quiet = collect_request(&coordinator, &ProbeRequest::Baseline(None)).unwrap();
    let external =
        collect_request(&coordinator, &ProbeRequest::Baseline(Some(MICROSOFT_URL))).unwrap();

    assert_eq!(focused.dns_checks.len(), 2);
    assert_eq!(quiet.dns_checks.len() + quiet.http_checks.len(), 0);
    assert_eq!(external.http_checks.len(), 1);
    // The full round checks both endpoints; the quiet baseline none; the
    // external baseline only the one it names.
    assert_eq!(
        *calls.lock().unwrap(),
        vec![MICROSOFT_URL.to_string(), GOOGLE_URL.to_string(), MICROSOFT_URL.to_string()]
    );
}

#[test]
fn a_round_runs_only_under_a_taken_lock() {
    let coordinator = NetworkProbeCoordinator::platform();
    let rounds = Mutex::new(());

    let taken = coordinator.round_under(Some(rounds.lock().unwrap()), Some(GOOGLE_URL), false);
    let snapshot = taken.unwrap();
    assert_eq!(snapshot.collector, "unsupported");
    assert_eq!(snapshot.http_checks[0].url, GOOGLE_URL);

    assert_eq!(
        coordinator.round_under(None, None, true),
        Err("network probe coordinator lock failed".to_string())
    );
}
