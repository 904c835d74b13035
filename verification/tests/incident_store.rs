use pc_health::network::domain::{
    DiagnosticArea, DiagnosticEvidence, EvidenceSource, EvidenceStatus, NetworkIncidentStatus,
};
use pc_health::network::incident_store::{
    incident_evidence_from_row, incident_from_row, incident_limit, representative_rows,
    retention_cutoff,
};

fn evidence(source: EvidenceSource, duration_ms: Option<u64>) -> DiagnosticEvidence {
    DiagnosticEvidence {
        source,
        status: EvidenceStatus::Timeout,
        checked_at: Some("2026-06-30T00:00:00Z".into()),
        duration_ms,
        detail: Some("test evidence".into()),
    }
}

#[test]
fn only_the_first_four_evidence_items_are_written() {
    let items: Vec<DiagnosticEvidence> = [
        EvidenceSource::Ethernet,
        EvidenceSource::Ipv4,
        EvidenceSource::DefaultRoute,
        EvidenceSource::Gateway,
        EvidenceSource::DnsGoogle,
    ]
    .into_iter()
    .map(|source| evidence(source, Some(10)))
    .collect();

    let rows = representative_rows(&items).unwrap();

    assert_eq!(rows.len(), 4);
    assert_eq!(rows[0].source, "ethernet");
    assert_eq!(rows[3].source, "gateway");
    assert_eq!(rows[3].status, "timeout");
    assert_eq!(rows[3].duration_ms, Some(10));
    assert_eq!(rows[3].detail.as_deref(), Some("test evidence"));
}

#[test]
fn too_large_durations_are_refused() {
    let items = vec![evidence(EvidenceSource::Gateway, Some(u64::MAX))];

    assert_eq!(
        representative_rows(&items).unwrap_err(),
        "evidence duration is too large"
    );
}

#[test]
fn durations_beyond_the_written_items_do_not_matter() {
    let mut items: Vec<DiagnosticEvidence> = (0..4)
        .map(|_| evidence(EvidenceSource::Gateway, None))
        .collect();
    items.push(evidence(EvidenceSource::Gateway, Some(u64::MAX)));

    let rows = representative_rows(&items).unwrap();

    assert_eq!(rows.len(), 4);
    assert!(rows.iter().all(|row| row.duration_ms.is_none()));
}

#[test]
fn stored_evidence_reads_back() {
    let item = incident_evidence_from_row(
        "dns_google",
        "success",
        None,
        Some(12),
        None,
        "2026-06-30T00:00:00Z".into(),
    )
    .unwrap();

    assert_eq!(item.source, EvidenceSource::DnsGoogle);
    assert_eq!(item.status, EvidenceStatus::Success);
    assert_eq!(item.duration_ms, Some(12));
    assert_eq!(item.observed_at, "2026-06-30T00:00:00Z");
}

#[test]
fn broken_evidence_rows_are_reported_in_column_order() {
    assert_eq!(
        incident_evidence_from_row("modem", "nope", None, Some(-1), None, "t".into())
            .unwrap_err(),
        "unknown evidence source: modem"
    );
    assert_eq!(
        incident_evidence_from_row("gateway", "nope", None, Some(-1), None, "t".into())
            .unwrap_err(),
        "unknown evidence status: nope"
    );
    assert_eq!(
        incident_evidence_from_row("gateway", "timeout", None, Some(-1), None, "t".into())
            .unwrap_err(),
        "stored evidence duration is negative"
    );
}

#[test]
fn stored_incidents_read_back() {
    let incident = incident_from_row(
        3,
        "resolved",
        "dns",
        "2026-06-30T00:00:00Z".into(),
        "2026-06-30T00:02:00Z".into(),
        Some("2026-06-30T00:02:00Z".into()),
        "DNS 장애가 복구되었습니다.".into(),
        Ok(vec![]),
    )
    .unwrap();

    assert_eq!(incident.id, 3);
    assert_eq!(incident.status, NetworkIncidentStatus::Resolved);
    assert_eq!(incident.area, DiagnosticArea::Dns);
    assert_eq!(incident.resolved_at.as_deref(), Some("2026-06-30T00:02:00Z"));
}

#[test]
fn broken_incident_rows_are_reported_in_read_order() {
    let read = |status: &str, area: &str, evidence: Result<Vec<_>, String>| {
        incident_from_row(
            1,
            status,
            area,
            "a".into(),
            "b".into(),
            None,
            "s".into(),
            evidence,
        )
        .unwrap_err()
    };

    assert_eq!(
        read("open", "dns", Err("bad evidence".into())),
        "unknown incident status: open"
    );
    assert_eq!(
        read("ongoing", "wan", Err("bad evidence".into())),
        "unknown diagnostic area: wan"
    );
    assert_eq!(read("ongoing", "dns", Err("bad evidence".into())), "bad evidence");
}

#[test]
fn incident_limits_fit_the_query() {
    assert_eq!(incident_limit(3), Ok(3));
    if usize::MAX as u128 > i64::MAX as u128 {
        assert_eq!(
            incident_limit(usize::MAX),
            Err("incident limit is too large".to_string())
        );
    }
}

#[test]
fn retention_cutoff_is_one_day_before_now() {
    assert_eq!(
        retention_cutoff(86_405, 0),
        Some("1970-01-01T00:00:05+00:00".to_string())
    );
    let now = chrono::DateTime::from_timestamp(1_700_000_000, 250_000_000).unwrap();
    assert_eq!(
        retention_cutoff(now.timestamp(), now.timestamp_subsec_nanos()),
        Some((now - chrono::Duration::hours(24)).to_rfc3339())
    );
    assert_eq!(retention_cutoff(i64::MIN, 0), None);
}
