use pc_health::network::collector::{GOOGLE_HOSTNAME, GOOGLE_URL, MICROSOFT_HOSTNAME, MICROSOFT_URL};
use pc_health::network::domain::{
    AdapterSnapshot, DiagnosticArea, DiagnosticLifecycle, DnsCheck, EvidenceSource,
    EvidenceStatus, GatewayCheck, HttpCheck, NetworkProbeSnapshot, ProbeError, ProbeStatus,
    RouteSnapshot,
};
use pc_health::network::observation::assess;
use pc_health::network::state_machine::NetworkDiagnosticStateMachine;

fn route() -> RouteSnapshot {
    RouteSnapshot {
        interface_index: 7,
        gateway: "192.168.0.1".into(),
        route_metric: 10,
        interface_metric: 5,
        combined_metric: 15,
        adapter_is_ethernet: true,
        adapter_is_up: true,
    }
}

fn snapshot() -> NetworkProbeSnapshot {
    let route = route();
    NetworkProbeSnapshot {
        collected_at: "2026-06-23T00:00:00Z".into(),
        collector: "fake".into(),
        duration_ms: 10,
        adapters: vec![AdapterSnapshot {
            name: "ethernet".into(),
            friendly_name: "Ethernet".into(),
            interface_index: 7,
            if_type: 6,
            operational_status: "up".into(),
            mac_address: None,
            ipv4_addresses: vec!["192.168.0.2".into()],
        }],
        default_routes: vec![route.clone()],
        selected_route: Some(route),
        gateway_check: GatewayCheck {
            status: ProbeStatus::Success,
            duration_ms: 2,
            reply_address: Some("192.168.0.1".into()),
            round_trip_ms: Some(1),
            error: None,
        },
        dns_checks: vec![],
        http_checks: vec![],
        errors: vec![],
    }
}

fn error(stage: &str) -> ProbeError {
    ProbeError {
        stage: stage.into(),
        code: "probe_failed".into(),
        message: "bounded failure detail".into(),
        native_code: None,
    }
}

fn dns(hostname: &str, status: ProbeStatus) -> DnsCheck {
    DnsCheck {
        hostname: hostname.into(),
        status,
        duration_ms: 5,
        addresses: if status == ProbeStatus::Success {
            vec!["203.0.113.1".into()]
        } else {
            vec![]
        },
        error: if status != ProbeStatus::Success {
            Some(error("dns"))
        } else {
            None
        },
    }
}

fn http(url: &str, status: ProbeStatus) -> HttpCheck {
    HttpCheck {
        url: url.into(),
        status,
        duration_ms: 7,
        status_code: if status == ProbeStatus::Success { Some(204) } else { None },
        body_matches: if status == ProbeStatus::Success { Some(true) } else { None },
        error: if status != ProbeStatus::Success {
            Some(error("http"))
        } else {
            None
        },
    }
}

fn with_full_checks(
    mut snapshot: NetworkProbeSnapshot,
    dns_statuses: [ProbeStatus; 2],
    http_statuses: [ProbeStatus; 2],
) -> NetworkProbeSnapshot {
    snapshot.dns_checks = vec![
        dns(MICROSOFT_HOSTNAME, dns_statuses[0]),
        dns(GOOGLE_HOSTNAME, dns_statuses[1]),
    ];
    snapshot.http_checks = vec![
        http(MICROSOFT_URL, http_statuses[0]),
        http(GOOGLE_URL, http_statuses[1]),
    ];
    snapshot
}

#[test]
fn inventory_error_without_route_is_unknown_not_local_connection() {
    let mut snapshot = snapshot();
    snapshot.adapters.clear();
    snapshot.default_routes.clear();
    snapshot.selected_route = None;
    snapshot.errors.push(error("inventory"));

    let assessment = assess(snapshot);

    assert_eq!(assessment.area, Some(DiagnosticArea::Unknown));
    assert!(assessment.failed_sources.is_empty());
    assert!([
        EvidenceSource::Ethernet,
        EvidenceSource::Ipv4,
        EvidenceSource::DefaultRoute
    ]
    .iter()
    .all(|source| !assessment.checked_sources.contains(source)));
    assert!(assessment.evidence.iter().take(3).all(|evidence| {
        evidence.status == EvidenceStatus::Unavailable && evidence.checked_at.is_none()
    }));
}

#[test]
fn valid_inventory_without_wired_topology_is_local_connection() {
    let mut snapshot = snapshot();
    snapshot.adapters.clear();
    snapshot.default_routes.clear();
    snapshot.selected_route = None;

    let assessment = assess(snapshot);

    assert_eq!(assessment.area, Some(DiagnosticArea::LocalConnection));
    assert_eq!(
        assessment.failed_sources,
        vec![
            EvidenceSource::Ethernet,
            EvidenceSource::Ipv4,
            EvidenceSource::DefaultRoute
        ]
    );
}

#[test]
fn gateway_timeout_identifies_gateway_or_local_and_preserves_error() {
    let mut snapshot = snapshot();
    snapshot.gateway_check.status = ProbeStatus::Timeout;
    snapshot.gateway_check.duration_ms = 1500;
    snapshot.gateway_check.error = Some(error("gateway"));

    let assessment = assess(snapshot);

    assert_eq!(assessment.area, Some(DiagnosticArea::GatewayOrLocal));
    assert!(assessment.failed_sources.contains(&EvidenceSource::Gateway));
    let evidence = assessment
        .evidence
        .iter()
        .find(|evidence| evidence.source == EvidenceSource::Gateway)
        .unwrap();
    assert_eq!(evidence.status, EvidenceStatus::Timeout);
    assert_eq!(evidence.checked_at.as_deref(), Some("2026-06-23T00:00:00Z"));
    assert_eq!(evidence.duration_ms, Some(1500));
    assert_eq!(evidence.detail.as_deref(), Some("bounded failure detail"));
}

#[test]
fn dns_failure_with_successful_http_is_conflicting_unknown() {
    let snapshot = with_full_checks(
        snapshot(),
        [ProbeStatus::Error, ProbeStatus::Error],
        [ProbeStatus::Success, ProbeStatus::Success],
    );

    let assessment = assess(snapshot);

    assert_eq!(assessment.area, Some(DiagnosticArea::Unknown));
}

#[test]
fn gateway_success_and_dns_failures_without_http_success_are_dns() {
    let snapshot = with_full_checks(
        snapshot(),
        [ProbeStatus::Error, ProbeStatus::Timeout],
        [ProbeStatus::NotRun, ProbeStatus::NotRun],
    );

    let assessment = assess(snapshot);

    assert_eq!(assessment.area, Some(DiagnosticArea::Dns));
}

#[test]
fn two_http_failures_after_gateway_and_dns_success_are_external() {
    let snapshot = with_full_checks(
        snapshot(),
        [ProbeStatus::Success, ProbeStatus::Success],
        [ProbeStatus::Timeout, ProbeStatus::Error],
    );

    let assessment = assess(snapshot);

    assert_eq!(assessment.area, Some(DiagnosticArea::External));
}

#[test]
fn one_http_failure_is_unknown() {
    let snapshot = with_full_checks(
        snapshot(),
        [ProbeStatus::Success, ProbeStatus::Success],
        [ProbeStatus::Timeout, ProbeStatus::Success],
    );

    let assessment = assess(snapshot);

    assert_eq!(assessment.area, Some(DiagnosticArea::Unknown));
}

#[test]
fn duplicate_endpoint_results_do_not_replace_independent_sources() {
    let mut snapshot = with_full_checks(
        snapshot(),
        [ProbeStatus::Success, ProbeStatus::Success],
        [ProbeStatus::Timeout, ProbeStatus::Timeout],
    );
    snapshot.http_checks[1].url = MICROSOFT_URL.into();

    let assessment = assess(snapshot);

    assert_eq!(assessment.area, Some(DiagnosticArea::Unknown));
}

#[test]
fn all_checked_results_success_is_normal_with_exact_sources() {
    let snapshot = with_full_checks(
        snapshot(),
        [ProbeStatus::Success, ProbeStatus::Success],
        [ProbeStatus::Success, ProbeStatus::Success],
    );

    let assessment = assess(snapshot);

    assert!(assessment.is_normal());
    assert_eq!(
        assessment.checked_sources,
        vec![
            EvidenceSource::Ethernet,
            EvidenceSource::Ipv4,
            EvidenceSource::DefaultRoute,
            EvidenceSource::Gateway,
            EvidenceSource::DnsMicrosoft,
            EvidenceSource::DnsGoogle,
            EvidenceSource::HttpMicrosoft,
            EvidenceSource::HttpGoogle,
        ]
    );
    assert!(assessment
        .evidence
        .iter()
        .all(|evidence| evidence.checked_at.is_some()));
}

#[test]
fn absent_dns_and_http_are_not_checked_or_emitted() {
    let assessment = assess(snapshot());

    assert_eq!(assessment.evidence.len(), 4);
    assert!(!assessment
        .checked_sources
        .contains(&EvidenceSource::DnsMicrosoft));
    assert!(!assessment
        .checked_sources
        .contains(&EvidenceSource::HttpMicrosoft));
}

#[test]
fn maps_every_probe_status_and_only_tracks_actual_checks() {
    let cases = [
        (ProbeStatus::Success, EvidenceStatus::Success, true, false),
        (ProbeStatus::Timeout, EvidenceStatus::Timeout, true, true),
        (ProbeStatus::Error, EvidenceStatus::Failure, true, true),
        (
            ProbeStatus::Unsupported,
            EvidenceStatus::Unavailable,
            false,
            false,
        ),
        (
            ProbeStatus::NotRun,
            EvidenceStatus::NotChecked,
            false,
            false,
        ),
    ];

    for (probe_status, evidence_status, actually_checked, failed) in cases {
        let mut snapshot = snapshot();
        snapshot.gateway_check.status = probe_status;
        snapshot.gateway_check.error = None;
        let assessment = assess(snapshot);
        let gateway = assessment
            .evidence
            .iter()
            .find(|evidence| evidence.source == EvidenceSource::Gateway)
            .unwrap();

        assert_eq!(gateway.status, evidence_status);
        assert_eq!(gateway.checked_at.is_some(), actually_checked);
        assert_eq!(
            assessment
                .checked_sources
                .contains(&EvidenceSource::Gateway),
            actually_checked
        );
        assert_eq!(
            assessment.failed_sources.contains(&EvidenceSource::Gateway),
            failed
        );
    }
}

#[test]
fn unavailable_source_cannot_confirm_a_later_concrete_incident() {
    let mut unavailable_snapshot = snapshot();
    unavailable_snapshot.http_checks = vec![http(MICROSOFT_URL, ProbeStatus::Unsupported)];
    let unavailable = assess(unavailable_snapshot);
    let concrete = assess(with_full_checks(
        snapshot(),
        [ProbeStatus::Success, ProbeStatus::Success],
        [ProbeStatus::Error, ProbeStatus::Error],
    ));
    let mut machine = NetworkDiagnosticStateMachine::new();

    let first = machine.apply(unavailable, "t0", false);
    let second = machine.apply(concrete, "t1", true);

    assert_eq!(first.lifecycle, Some(DiagnosticLifecycle::Suspected));
    assert_eq!(second.lifecycle, Some(DiagnosticLifecycle::Suspected));
}

#[test]
fn recovery_of_an_area_needs_its_sources_checked_without_failure() {
    let gateway_only = assess(snapshot());
    assert!(gateway_only.verifies_recovery_for(&DiagnosticArea::GatewayOrLocal));
    assert!(!gateway_only.verifies_recovery_for(&DiagnosticArea::Dns));

    let all = assess(with_full_checks(
        snapshot(),
        [ProbeStatus::Success, ProbeStatus::Success],
        [ProbeStatus::Success, ProbeStatus::Success],
    ));
    assert!(all.verifies_recovery_for(&DiagnosticArea::Dns));
    assert!(all.verifies_recovery_for(&DiagnosticArea::External));
}

#[test]
fn long_failure_details_are_cut_to_a_bounded_length() {
    let mut snapshot = snapshot();
    snapshot.gateway_check.status = ProbeStatus::Error;
    snapshot.gateway_check.error = Some(ProbeError {
        stage: "gateway".into(),
        code: "icmp_failed".into(),
        message: "x".repeat(500),
        native_code: None,
    });

    let assessment = assess(snapshot);
    let gateway = assessment
        .evidence
        .iter()
        .find(|evidence| evidence.source == EvidenceSource::Gateway)
        .unwrap();

    assert_eq!(gateway.detail.as_ref().unwrap().chars().count(), 256);
}
