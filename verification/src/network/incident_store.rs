//! The row formats of the incident history: what is written for each incident
//! and its representative evidence, and how stored rows are read back.
use vstd::prelude::*;
use crate::text::{owned, opt_text};
use super::service::{rfc3339_at, rfc3339_text};
use super::domain::{
    evidence_status_text, evidence_views, parse_area, parse_evidence_status,
    parse_incident_status, parse_source, source_text, DiagnosticArea, DiagnosticEvidence,
    EvidenceSource, EvidenceStatus, EvidenceView, NetworkIncident, NetworkIncidentEvidence,
    NetworkIncidentStatus,
};

verus! {

/// How long probe observations are kept, in seconds: one day.
pub const OBSERVATION_RETENTION_SECS: i64 = 86_400;

/// The time before which stored probe observations are pruned: one day
/// before the time `now_secs` seconds and `now_nanos` nanoseconds after the
/// Unix epoch, in RFC 3339 form. `None` where that time has no date.
pub fn retention_cutoff(now_secs: i64, now_nanos: u32) -> (r: Option<String>)
    ensures
        now_secs >= i64::MIN + OBSERVATION_RETENTION_SECS ==> opt_text(r) == rfc3339_text(
            (now_secs - OBSERVATION_RETENTION_SECS) as i64,
            now_nanos,
        ),
        now_secs < i64::MIN + OBSERVATION_RETENTION_SECS ==> r is None,
{
    if now_secs < i64::MIN + OBSERVATION_RETENTION_SECS {
        None
    } else {
        rfc3339_at(now_secs - OBSERVATION_RETENTION_SECS, now_nanos)
    }
}

/// How many evidence items an incident keeps, and how many one write adds.
pub const REPRESENTATIVE_EVIDENCE_LIMIT: usize = 4;

/// One evidence item as a row of the incident history.
#[derive(Debug)]
pub struct EvidenceRow {
    pub source: &'static str,
    pub status: &'static str,
    pub checked_at: Option<String>,
    pub duration_ms: Option<i64>,
    pub detail: Option<String>,
}

/// The evidence items that one write adds to an incident: the first ones, up
/// to the limit.
pub open spec fn representative(evidence: Seq<EvidenceView>) -> Seq<EvidenceView> {
    if evidence.len() <= REPRESENTATIVE_EVIDENCE_LIMIT {
        evidence
    } else {
        evidence.take(REPRESENTATIVE_EVIDENCE_LIMIT as int)
    }
}

/// Whether a duration can be stored as a signed 64-bit column.
pub open spec fn duration_fits(d: Option<u64>) -> bool {
    match d {
        Some(ms) => ms <= i64::MAX,
        None => true,
    }
}

/// The row written for one evidence item whose duration fits.
pub open spec fn row_matches(row: EvidenceRow, e: EvidenceView) -> bool {
    &&& row.source@ == source_text(e.source)
    &&& row.status@ == evidence_status_text(e.status)
    &&& opt_text(row.checked_at) == e.checked_at
    &&& opt_text(row.detail) == e.detail
    &&& row.duration_ms == match e.duration_ms {
        Some(ms) => Some(ms as i64),
        None => None::<i64>,
    }
}

fn stored_duration(d: Option<u64>) -> (r: Option<Option<i64>>)
    ensures
        r is Some <==> duration_fits(d),
        r matches Some(v) ==> v == match d {
            Some(ms) => Some(ms as i64),
            None => None::<i64>,
        },
{
    match d {
        Some(ms) => {
            if ms <= 9_223_372_036_854_775_807u64 {
                Some(Some(ms as i64))
            } else {
                None
            }
        },
        None => Some(None),
    }
}

/// The rows that one incident write adds: the representative evidence in
/// order, or an error when one of those items has a duration too large to
/// store (then nothing is written).
pub fn representative_rows(evidence: &Vec<DiagnosticEvidence>) -> (r: Result<Vec<EvidenceRow>, String>)
    ensures
        r is Ok <==> forall|i: int|
            0 <= i < representative(evidence_views(evidence@)).len() ==> duration_fits(
                #[trigger] representative(evidence_views(evidence@))[i].duration_ms,
            ),
        r matches Ok(rows) ==> rows@.len() == representative(evidence_views(evidence@)).len()
            && forall|i: int|
            0 <= i < rows@.len() ==> row_matches(
                #[trigger] rows@[i],
                representative(evidence_views(evidence@))[i],
            ),
        r matches Err(e) ==> e@ == "evidence duration is too large"@,
{
    let ghost kept = representative(evidence_views(evidence@));
    let count: usize = if evidence.len() <= REPRESENTATIVE_EVIDENCE_LIMIT {
        evidence.len()
    } else {
        REPRESENTATIVE_EVIDENCE_LIMIT
    };
    assert(kept.len() == count);
    assert forall|i: int| 0 <= i < count implies kept[i] == evidence@[i]@ by {}
    let mut rows: Vec<EvidenceRow> = Vec::new();
    let mut index: usize = 0;
    while index < count
        invariant
            count <= evidence.len(),
            kept.len() == count,
            kept == representative(evidence_views(evidence@)),
            forall|i: int| 0 <= i < count ==> kept[i] == evidence@[i]@,
            index <= count,
            rows@.len() == index,
            forall|i: int| 0 <= i < index ==> duration_fits(#[trigger] kept[i].duration_ms),
            forall|i: int| 0 <= i < index ==> row_matches(#[trigger] rows@[i], kept[i]),
        decreases count - index,
    {
        let item = &evidence[index];
        let duration_ms = match stored_duration(item.duration_ms) {
            Some(d) => d,
            None => {
                assert(!duration_fits(kept[index as int].duration_ms));
                return Err(owned("evidence duration is too large"));
            },
        };
        rows.push(
            EvidenceRow {
                source: item.source.as_str(),
                status: item.status.as_str(),
                checked_at: item.checked_at.clone(),
                duration_ms,
                detail: item.detail.clone(),
            },
        );
        index = index + 1;
    }
    Ok(rows)
}

/// The error for a stored row that cannot be read back, in the order the
/// columns are read: source, status, then duration.
pub open spec fn stored_evidence_error(
    source: Seq<char>,
    status: Seq<char>,
    duration_ms: Option<i64>,
) -> Option<Seq<char>> {
    if parse_source(source) is None {
        Some("unknown evidence source: "@ + source)
    } else if parse_evidence_status(status) is None {
        Some("unknown evidence status: "@ + status)
    } else if duration_ms matches Some(ms) && ms < 0 {
        Some("stored evidence duration is negative"@)
    } else {
        None
    }
}

/// Reads back one stored evidence row.
pub fn incident_evidence_from_row(
    source: &str,
    status: &str,
    checked_at: Option<String>,
    duration_ms: Option<i64>,
    detail: Option<String>,
    observed_at: String,
) -> (r: Result<NetworkIncidentEvidence, String>)
    ensures
        match r {
            Ok(e) => {
                &&& stored_evidence_error(source@, status@, duration_ms) is None
                &&& parse_source(source@) == Some(e.source)
                &&& parse_evidence_status(status@) == Some(e.status)
                &&& e.checked_at == checked_at
                &&& e.detail == detail
                &&& e.observed_at == observed_at
                &&& e.duration_ms == match duration_ms {
                    Some(ms) => Some(ms as u64),
                    None => None::<u64>,
                }
            },
            Err(e) => stored_evidence_error(source@, status@, duration_ms) == Some(e@),
        },
{
    let source = match EvidenceSource::from_str(source) {
        Ok(s) => s,
        Err(e) => {
            return Err(e);
        },
    };
    let status = match EvidenceStatus::from_str(status) {
        Ok(s) => s,
        Err(e) => {
            return Err(e);
        },
    };
    let duration_ms = match duration_ms {
        Some(ms) => {
            if ms < 0 {
                return Err(owned("stored evidence duration is negative"));
            }
            Some(ms as u64)
        },
        None => None,
    };
    Ok(NetworkIncidentEvidence { source, status, checked_at, duration_ms, detail, observed_at })
}

/// The error for a stored incident row that cannot be read back, in the order
/// the parts are read: status, area, then its evidence.
pub open spec fn stored_incident_error(
    status: Seq<char>,
    area: Seq<char>,
    evidence: Result<Seq<NetworkIncidentEvidence>, Seq<char>>,
) -> Option<Seq<char>> {
    if parse_incident_status(status) is None {
        Some("unknown incident status: "@ + status)
    } else if parse_area(area) is None {
        Some("unknown diagnostic area: "@ + area)
    } else {
        match evidence {
            Err(e) => Some(e),
            Ok(_) => None,
        }
    }
}

pub open spec fn evidence_result_view(
    evidence: Result<Vec<NetworkIncidentEvidence>, String>,
) -> Result<Seq<NetworkIncidentEvidence>, Seq<char>> {
    match evidence {
        Ok(v) => Ok(v@),
        Err(e) => Err(e@),
    }
}

/// Reads back one stored incident row together with the result of reading
/// its representative evidence.
pub fn incident_from_row(
    id: i64,
    status: &str,
    area: &str,
    started_at: String,
    last_observed_at: String,
    resolved_at: Option<String>,
    summary: String,
    representative_evidence: Result<Vec<NetworkIncidentEvidence>, String>,
) -> (r: Result<NetworkIncident, String>)
    ensures
        match r {
            Ok(i) => {
                &&& stored_incident_error(
                    status@,
                    area@,
                    evidence_result_view(representative_evidence),
                ) is None
                &&& i.id == id
                &&& parse_incident_status(status@) == Some(i.status)
                &&& parse_area(area@) == Some(i.area)
                &&& i.started_at == started_at
                &&& i.last_observed_at == last_observed_at
                &&& i.resolved_at == resolved_at
                &&& i.summary == summary
                &&& evidence_result_view(representative_evidence) == Ok::<
                    Seq<NetworkIncidentEvidence>,
                    Seq<char>,
                >(i.representative_evidence@)
            },
            Err(e) => stored_incident_error(
                status@,
                area@,
                evidence_result_view(representative_evidence),
            ) == Some(e@),
        },
{
    let status = match NetworkIncidentStatus::from_str(status) {
        Ok(s) => s,
        Err(e) => {
            return Err(e);
        },
    };
    let area = match DiagnosticArea::from_str(area) {
        Ok(a) => a,
        Err(e) => {
            return Err(e);
        },
    };
    let representative_evidence = match representative_evidence {
        Ok(v) => v,
        Err(e) => {
            return Err(e);
        },
    };
    Ok(
        NetworkIncident {
            id,
            status,
            area,
            started_at,
            last_observed_at,
            resolved_at,
            summary,
            representative_evidence,
        },
    )
}

/// The number of incidents to read, as the query takes it.
pub fn incident_limit(limit: usize) -> (r: Result<i64, String>)
    ensures
        match r {
            Ok(n) => limit <= i64::MAX && n == limit,
            Err(e) => limit > i64::MAX && e@ == "incident limit is too large"@,
        },
{
    if limit as u128 <= 9_223_372_036_854_775_807u128 {
        Ok(limit as i64)
    } else {
        Err(owned("incident limit is too large"))
    }
}

} // verus!
