use pc_health::network::domain::{
    select_default_route, DiagnosticArea, DiagnosticLifecycle, EvidenceSource, EvidenceStatus,
    NetworkDiagnosticStatus, NetworkIncidentStatus, RouteSnapshot, RuntimeAvailability,
};

fn route(index: u32, ethernet: bool, up: bool, metric: u32) -> RouteSnapshot {
    RouteSnapshot {
        interface_index: index,
        gateway: format!("192.168.0.{index}"),
        route_metric: metric,
        interface_metric: 0,
        combined_metric: metric,
        adapter_is_ethernet: ethernet,
        adapter_is_up: up,
    }
}

#[test]
fn starting_status_has_no_invented_observation() {
    let status = NetworkDiagnosticStatus::starting();
    assert_eq!(status.availability, RuntimeAvailability::Starting);
    assert_eq!(status.lifecycle, None);
    assert_eq!(status.observed_at, None);
    assert!(status.evidence.is_empty());
}

#[test]
fn selects_up_ethernet_before_lower_metric_non_ethernet() {
    let routes = vec![route(1, false, true, 1), route(2, true, true, 20)];

    assert_eq!(select_default_route(&routes).unwrap().interface_index, 2);
}

#[test]
fn selects_lowest_metric_within_same_adapter_priority() {
    let routes = vec![route(1, true, true, 30), route(2, true, true, 10)];

    assert_eq!(select_default_route(&routes).unwrap().interface_index, 2);
}

#[test]
fn returns_none_without_candidates() {
    assert!(select_default_route(&[]).is_none());
}

#[test]
fn route_selection_prefers_up_adapters_then_lower_metric_then_lower_index() {
    let routes = vec![
        route(1, true, false, 1),
        route(2, false, true, 5),
        route(3, false, true, 5),
    ];

    assert_eq!(select_default_route(&routes).unwrap().interface_index, 2);
}

#[test]
fn wire_names_round_trip() {
    for lifecycle in [
        DiagnosticLifecycle::Normal,
        DiagnosticLifecycle::Suspected,
        DiagnosticLifecycle::Incident,
        DiagnosticLifecycle::Recovering,
        DiagnosticLifecycle::Resolved,
    ] {
        assert_eq!(DiagnosticLifecycle::from_str(lifecycle.as_str()), Ok(lifecycle));
    }
    for area in [
        DiagnosticArea::LocalConnection,
        DiagnosticArea::GatewayOrLocal,
        DiagnosticArea::Dns,
        DiagnosticArea::External,
        DiagnosticArea::Unknown,
    ] {
        assert_eq!(DiagnosticArea::from_str(area.as_str()), Ok(area));
    }
    for source in [
        EvidenceSource::Ethernet,
        EvidenceSource::Ipv4,
        EvidenceSource::DefaultRoute,
        EvidenceSource::Gateway,
        EvidenceSource::DnsMicrosoft,
        EvidenceSource::DnsGoogle,
        EvidenceSource::HttpMicrosoft,
        EvidenceSource::HttpGoogle,
    ] {
        assert_eq!(EvidenceSource::from_str(source.as_str()), Ok(source));
    }
    for status in [
        EvidenceStatus::Success,
        EvidenceStatus::Failure,
        EvidenceStatus::Timeout,
        EvidenceStatus::Unavailable,
        EvidenceStatus::NotChecked,
    ] {
        assert_eq!(EvidenceStatus::from_str(status.as_str()), Ok(status));
    }
    for status in [
        NetworkIncidentStatus::Ongoing,
        NetworkIncidentStatus::Recovering,
        NetworkIncidentStatus::Resolved,
    ] {
        assert_eq!(NetworkIncidentStatus::from_str(status.as_str()), Ok(status));
    }
}

#[test]
fn wire_names_are_snake_case() {
    assert_eq!(DiagnosticArea::GatewayOrLocal.as_str(), "gateway_or_local");
    assert_eq!(EvidenceSource::DefaultRoute.as_str(), "default_route");
    assert_eq!(EvidenceStatus::NotChecked.as_str(), "not_checked");
    assert_eq!(DiagnosticLifecycle::Recovering.as_str(), "recovering");
    assert_eq!(NetworkIncidentStatus::Ongoing.as_str(), "ongoing");
}

#[test]
fn unknown_wire_names_are_rejected_with_the_name() {
    assert_eq!(
        DiagnosticLifecycle::from_str("broken"),
        Err("unknown diagnostic lifecycle: broken".to_string())
    );
    assert_eq!(
        DiagnosticArea::from_str("Dns"),
        Err("unknown diagnostic area: Dns".to_string())
    );
    assert_eq!(
        EvidenceSource::from_str(""),
        Err("unknown evidence source: ".to_string())
    );
    assert_eq!(
        EvidenceStatus::from_str("ok"),
        Err("unknown evidence status: ok".to_string())
    );
    assert_eq!(
        NetworkIncidentStatus::from_str("closed"),
        Err("unknown incident status: closed".to_string())
    );
}
