use vstd::prelude::*;
use crate::text::{joined, opt_text};
use super::domain::{
    area_text, clone_evidence, evidence_views, lifecycle_text, DiagnosticArea,
    DiagnosticEvidence, DiagnosticLifecycle, EvidenceView, NetworkDiagnosticStatus,
    NetworkIncidentStatus, StatusView,
};

verus! {

/// A write that the incident history has to perform.
#[derive(Debug)]
pub enum StoreCommand {
    /// Keep one observation in the short-term probe log.
    RecordObservation {
        observed_at: String,
        lifecycle: Option<&'static str>,
        suspected_area: Option<&'static str>,
        evidence: Vec<DiagnosticEvidence>,
    },
    /// Open a new incident; the store answers with its id.
    CreateIncident {
        area: DiagnosticArea,
        observed_at: String,
        summary: String,
        evidence: Vec<DiagnosticEvidence>,
    },
    /// Update the open incident.
    UpdateIncident {
        id: i64,
        status: NetworkIncidentStatus,
        area: DiagnosticArea,
        observed_at: String,
        resolved_at: Option<String>,
        summary: String,
        evidence: Vec<DiagnosticEvidence>,
    },
}

/// The abstract content of a store command.
pub enum CommandView {
    RecordObservation {
        observed_at: Seq<char>,
        lifecycle: Option<Seq<char>>,
        suspected_area: Option<Seq<char>>,
        evidence: Seq<EvidenceView>,
    },
    CreateIncident {
        area: DiagnosticArea,
        observed_at: Seq<char>,
        summary: Seq<char>,
        evidence: Seq<EvidenceView>,
    },
    UpdateIncident {
        id: i64,
        status: NetworkIncidentStatus,
        area: DiagnosticArea,
        observed_at: Seq<char>,
        resolved_at: Option<Seq<char>>,
        summary: Seq<char>,
        evidence: Seq<EvidenceView>,
    },
}

pub open spec fn opt_static_text(o: Option<&'static str>) -> Option<Seq<char>> {
    match o {
        Some(s) => Some(s@),
        None => None,
    }
}

impl View for StoreCommand {
    type V = CommandView;

    open spec fn view(&self) -> CommandView {
        match self {
            StoreCommand::RecordObservation { observed_at, lifecycle, suspected_area, evidence } => {
                CommandView::RecordObservation {
                    observed_at: observed_at@,
                    lifecycle: opt_static_text(*lifecycle),
                    suspected_area: opt_static_text(*suspected_area),
                    evidence: evidence_views(evidence@),
                }
            },
            StoreCommand::CreateIncident { area, observed_at, summary, evidence } => {
                CommandView::CreateIncident {
                    area: *area,
                    observed_at: observed_at@,
                    summary: summary@,
                    evidence: evidence_views(evidence@),
                }
            },
            StoreCommand::UpdateIncident {
                id,
                status,
                area,
                observed_at,
                resolved_at,
                summary,
                evidence,
            } => CommandView::UpdateIncident {
                id: *id,
                status: *status,
                area: *area,
                observed_at: observed_at@,
                resolved_at: opt_text(*resolved_at),
                summary: summary@,
                evidence: evidence_views(evidence@),
            },
        }
    }
}

/// The words for an area in incident summaries.
pub open spec fn area_label(area: DiagnosticArea) -> Seq<char> {
    match area {
        DiagnosticArea::LocalConnection => "내 PC 연결"@,
        DiagnosticArea::GatewayOrLocal => "내 PC 또는 공유기"@,
        DiagnosticArea::Dns => "DNS"@,
        DiagnosticArea::External => "외부 연결"@,
        DiagnosticArea::Unknown => "확인 불가"@,
    }
}

/// The summary of an incident in the given state about an area.
pub open spec fn summary_text(area: DiagnosticArea, status: NetworkIncidentStatus) -> Seq<char> {
    match status {
        NetworkIncidentStatus::Ongoing => area_label(area) + "에서 문제 근거가 확인되었습니다."@,
        NetworkIncidentStatus::Recovering => area_label(area)
            + "이 정상으로 돌아왔는지 확인하고 있습니다."@,
        NetworkIncidentStatus::Resolved => "네트워크 장애가 복구되었습니다."@,
    }
}

/// The suspected area of a status, unknown when there is none.
pub open spec fn area_or_unknown(area: Option<DiagnosticArea>) -> DiagnosticArea {
    match area {
        Some(a) => a,
        None => DiagnosticArea::Unknown,
    }
}

fn area_label_text(area: DiagnosticArea) -> (r: &'static str)
    ensures
        r@ == area_label(area),
{
    match area {
        DiagnosticArea::LocalConnection => "내 PC 연결",
        DiagnosticArea::GatewayOrLocal => "내 PC 또는 공유기",
        DiagnosticArea::Dns => "DNS",
        DiagnosticArea::External => "외부 연결",
        DiagnosticArea::Unknown => "확인 불가",
    }
}

/// The incident summary for a status.
pub fn summary_for(
    status: &NetworkDiagnosticStatus,
    incident_status: NetworkIncidentStatus,
) -> (r: String)
    ensures
        r@ == summary_text(area_or_unknown(status.suspected_area), incident_status),
{
    let area = match status.suspected_area {
        Some(a) => a,
        None => DiagnosticArea::Unknown,
    };
    let label = area_label_text(area);
    match incident_status {
        NetworkIncidentStatus::Ongoing => joined(label, "에서 문제 근거가 확인되었습니다."),
        NetworkIncidentStatus::Recovering => joined(
            label,
            "이 정상으로 돌아왔는지 확인하고 있습니다.",
        ),
        NetworkIncidentStatus::Resolved => crate::text::owned("네트워크 장애가 복구되었습니다."),
    }
}

/// The recorder's memory: the open incident, if any, and the last status
/// recorded.
pub struct RecorderView {
    pub open_incident_id: Option<i64>,
    pub previous: Option<StatusView>,
}

/// The observation a status leaves in the probe log: one for every status
/// that carries an observation time.
pub open spec fn observation_plan(s: StatusView) -> Option<CommandView> {
    match s.observed_at {
        None => None,
        Some(at) => Some(
            CommandView::RecordObservation {
                observed_at: at,
                lifecycle: match s.lifecycle {
                    Some(l) => Some(lifecycle_text(l)),
                    None => None,
                },
                suspected_area: match s.suspected_area {
                    Some(a) => Some(area_text(a)),
                    None => None,
                },
                evidence: s.evidence,
            },
        ),
    }
}

/// The area written when an open incident is updated: the status's area,
/// else the previous status's, else unknown.
pub open spec fn update_area(r: RecorderView, s: StatusView) -> DiagnosticArea {
    match s.suspected_area {
        Some(a) => a,
        None => match r.previous {
            Some(p) => area_or_unknown(p.suspected_area),
            None => DiagnosticArea::Unknown,
        },
    }
}

/// The incident write a status calls for: an incident opens a record or
/// updates the open one; recovering and resolved update the open record
/// (resolved also stamps its resolution time); nothing else touches the
/// incident history.
pub open spec fn incident_plan(r: RecorderView, s: StatusView) -> Option<CommandView> {
    match s.observed_at {
        None => None,
        Some(at) => match s.lifecycle {
            Some(DiagnosticLifecycle::Incident) => {
                let area = area_or_unknown(s.suspected_area);
                let summary = summary_text(area, NetworkIncidentStatus::Ongoing);
                match r.open_incident_id {
                    Some(id) => Some(
                        CommandView::UpdateIncident {
                            id,
                            status: NetworkIncidentStatus::Ongoing,
                            area,
                            observed_at: at,
                            resolved_at: None,
                            summary,
                            evidence: s.evidence,
                        },
                    ),
                    None => Some(
                        CommandView::CreateIncident {
                            area,
                            observed_at: at,
                            summary,
                            evidence: s.evidence,
                        },
                    ),
                }
            },
            Some(DiagnosticLifecycle::Recovering) => match r.open_incident_id {
                Some(id) => Some(
                    CommandView::UpdateIncident {
                        id,
                        status: NetworkIncidentStatus::Recovering,
                        area: update_area(r, s),
                        observed_at: at,
                        resolved_at: None,
                        summary: summary_text(
                            area_or_unknown(s.suspected_area),
                            NetworkIncidentStatus::Recovering,
                        ),
                        evidence: s.evidence,
                    },
                ),
                None => None,
            },
            Some(DiagnosticLifecycle::Resolved) => match r.open_incident_id {
                Some(id) => Some(
                    CommandView::UpdateIncident {
                        id,
                        status: NetworkIncidentStatus::Resolved,
                        area: update_area(r, s),
                        observed_at: at,
                        resolved_at: Some(at),
                        summary: summary_text(
                            area_or_unknown(s.suspected_area),
                            NetworkIncidentStatus::Resolved,
                        ),
                        evidence: s.evidence,
                    },
                ),
                None => None,
            },
            _ => None,
        },
    }
}

/// The recorder's memory once a status has been written: an incident that
/// was created remembers its id, a resolution closes the record, and the
/// status becomes the previous one.
pub open spec fn after_commit(r: RecorderView, s: StatusView, created_id: Option<i64>) -> RecorderView {
    RecorderView {
        open_incident_id: if s.observed_at is None {
            r.open_incident_id
        } else if s.lifecycle == Some(DiagnosticLifecycle::Incident) && r.open_incident_id is None {
            created_id
        } else if s.lifecycle == Some(DiagnosticLifecycle::Resolved) {
            None
        } else {
            r.open_incident_id
        },
        previous: Some(s),
    }
}

/// Turns the published diagnostic statuses into writes to the incident
/// history. The owner performs the writes that `plan` asks for, in order,
/// and then calls `commit` with the id of a created incident; when a write
/// fails the owner stops and does not commit.
pub struct NetworkIncidentRecorder {
    open_incident_id: Option<i64>,
    previous: Option<NetworkDiagnosticStatus>,
}

/// The writes for one status: the observation first, then the incident.
pub struct RecordPlan {
    pub observation: Option<StoreCommand>,
    pub incident: Option<StoreCommand>,
}

pub open spec fn opt_command_view(c: Option<StoreCommand>) -> Option<CommandView> {
    match c {
        Some(c) => Some(c@),
        None => None,
    }
}

impl View for NetworkIncidentRecorder {
    type V = RecorderView;

    closed spec fn view(&self) -> RecorderView {
        RecorderView {
            open_incident_id: self.open_incident_id,
            previous: match self.previous {
                Some(p) => Some(p@),
                None => None,
            },
        }
    }
}

impl NetworkIncidentRecorder {
    pub fn new() -> (r: Self)
        ensures
            r@.open_incident_id is None,
            r@.previous is None,
    {
        NetworkIncidentRecorder { open_incident_id: None, previous: None }
    }

    /// The id of the open incident.
    pub fn open_incident_id(&self) -> (r: Option<i64>)
        ensures
            r == self@.open_incident_id,
    {
        self.open_incident_id
    }

    /// The writes that recording `status` takes.
    pub fn plan(&self, status: &NetworkDiagnosticStatus) -> (r: RecordPlan)
        ensures
            opt_command_view(r.observation) == observation_plan(status@),
            opt_command_view(r.incident) == incident_plan(self@, status@),
    {
        let observed_at = match &status.observed_at {
            Some(at) => at,
            None => {
                return RecordPlan { observation: None, incident: None };
            },
        };
        let observation = StoreCommand::RecordObservation {
            observed_at: observed_at.clone(),
            lifecycle: match status.lifecycle {
                Some(l) => Some(l.as_str()),
                None => None,
            },
            suspected_area: match status.suspected_area {
                Some(a) => Some(a.as_str()),
                None => None,
            },
            evidence: clone_evidence(&status.evidence),
        };
        let incident = match status.lifecycle {
            Some(DiagnosticLifecycle::Incident) => {
                let area = match status.suspected_area {
                    Some(a) => a,
                    None => DiagnosticArea::Unknown,
                };
                let summary = summary_for(status, NetworkIncidentStatus::Ongoing);
                match self.open_incident_id {
                    Some(id) => Some(
                        StoreCommand::UpdateIncident {
                            id,
                            status: NetworkIncidentStatus::Ongoing,
                            area,
                            observed_at: observed_at.clone(),
                            resolved_at: None,
                            summary,
                            evidence: clone_evidence(&status.evidence),
                        },
                    ),
                    None => Some(
                        StoreCommand::CreateIncident {
                            area,
                            observed_at: observed_at.clone(),
                            summary,
                            evidence: clone_evidence(&status.evidence),
                        },
                    ),
                }
            },
            Some(DiagnosticLifecycle::Recovering) => {
                self.update_open(status, NetworkIncidentStatus::Recovering, observed_at, false)
            },
            Some(DiagnosticLifecycle::Resolved) => {
                self.update_open(status, NetworkIncidentStatus::Resolved, observed_at, true)
            },
            _ => None,
        };
        RecordPlan { observation: Some(observation), incident }
    }

    fn update_open(
        &self,
        status: &NetworkDiagnosticStatus,
        incident_status: NetworkIncidentStatus,
        observed_at: &String,
        resolved: bool,
    ) -> (r: Option<StoreCommand>)
        ensures
            opt_command_view(r) == match self@.open_incident_id {
                Some(id) => Some(
                    CommandView::UpdateIncident {
                        id,
                        status: incident_status,
                        area: update_area(self@, status@),
                        observed_at: observed_at@,
                        resolved_at: if resolved {
                            Some(observed_at@)
                        } else {
                            None
                        },
                        summary: summary_text(
                            area_or_unknown(status.suspected_area),
                            incident_status,
                        ),
                        evidence: status@.evidence,
                    },
                ),
                None => None,
            },
    {
        let id = match self.open_incident_id {
            Some(id) => id,
            None => {
                return None;
            },
        };
        let area = match status.suspected_area {
            Some(a) => a,
            None => match &self.previous {
                Some(p) => match p.suspected_area {
                    Some(a) => a,
                    None => DiagnosticArea::Unknown,
                },
                None => DiagnosticArea::Unknown,
            },
        };
        Some(
            StoreCommand::UpdateIncident {
                id,
                status: incident_status,
                area,
                observed_at: observed_at.clone(),
                resolved_at: if resolved {
                    Some(observed_at.clone())
                } else {
                    None
                },
                summary: summary_for(status, incident_status),
                evidence: clone_evidence(&status.evidence),
            },
        )
    }

    /// Records that the writes planned for `status` succeeded; `created_id`
    /// is the id that a planned incident creation returned.
    pub fn commit(&mut self, status: &NetworkDiagnosticStatus, created_id: Option<i64>)
        ensures
            final(self)@ == after_commit(old(self)@, status@, created_id),
    {
        if status.observed_at.is_some() {
            match status.lifecycle {
                Some(DiagnosticLifecycle::Incident) => {
                    if self.open_incident_id.is_none() {
                        self.open_incident_id = created_id;
                    }
                },
                Some(DiagnosticLifecycle::Resolved) => {
                    self.open_incident_id = None;
                },
                _ => {},
            }
        }
        self.previous = Some(status.clone());
    }
}

/// Only a confirmed incident, a recovery or a resolution touches the
/// incident history: a normal or suspected status, or one without a
/// lifecycle, writes no incident.
pub proof fn suspicion_writes_no_incident(r: RecorderView, s: StatusView)
    requires
        s.lifecycle is None || s.lifecycle == Some(DiagnosticLifecycle::Normal) || s.lifecycle
            == Some(DiagnosticLifecycle::Suspected),
    ensures
        incident_plan(r, s) is None,
{
}

/// A status without an observation time writes nothing at all.
pub proof fn unobserved_status_writes_nothing(r: RecorderView, s: StatusView)
    requires
        s.observed_at is None,
    ensures
        observation_plan(s) is None,
        incident_plan(r, s) is None,
{
}

/// Every observed status leaves one entry in the probe log, at its own time.
pub proof fn every_observation_is_logged(s: StatusView)
    requires
        s.observed_at is Some,
    ensures
        observation_plan(s) matches Some(CommandView::RecordObservation { observed_at, .. })
            && observed_at == s.observed_at->0,
{
}

/// While an incident is open, every incident, recovery and resolution
/// updates that same record and never opens another.
pub proof fn open_incident_is_updated_in_place(r: RecorderView, s: StatusView)
    requires
        r.open_incident_id is Some,
        s.observed_at is Some,
        s.lifecycle == Some(DiagnosticLifecycle::Incident) || s.lifecycle == Some(
            DiagnosticLifecycle::Recovering,
        ) || s.lifecycle == Some(DiagnosticLifecycle::Resolved),
    ensures
        incident_plan(r, s) matches Some(CommandView::UpdateIncident { id, observed_at, .. })
            && id == r.open_incident_id->0 && observed_at == s.observed_at->0,
{
}

/// With no incident open, a confirmed incident opens a new record that starts
/// at the observation time, and a recovery or resolution writes nothing.
pub proof fn closed_history_opens_a_new_record(r: RecorderView, s: StatusView)
    requires
        r.open_incident_id is None,
        s.observed_at is Some,
    ensures
        s.lifecycle == Some(DiagnosticLifecycle::Incident) ==> (incident_plan(r, s) matches Some(
            CommandView::CreateIncident { observed_at, .. },
        ) && observed_at == s.observed_at->0),
        s.lifecycle != Some(DiagnosticLifecycle::Incident) ==> incident_plan(r, s) is None,
{
}

/// A resolution stamps its own time as the resolution time and closes the
/// record: the next confirmed incident opens a new one.
pub proof fn resolution_closes_the_record(
    r: RecorderView,
    s: StatusView,
    created_id: Option<i64>,
    next: StatusView,
)
    requires
        r.open_incident_id is Some,
        s.observed_at is Some,
        s.lifecycle == Some(DiagnosticLifecycle::Resolved),
        next.observed_at is Some,
        next.lifecycle == Some(DiagnosticLifecycle::Incident),
    ensures
        incident_plan(r, s) matches Some(
            CommandView::UpdateIncident { status, resolved_at, .. },
        ) && status == NetworkIncidentStatus::Resolved && resolved_at == s.observed_at,
        after_commit(r, s, created_id).open_incident_id is None,
        incident_plan(after_commit(r, s, created_id), next) is Some,
        incident_plan(after_commit(r, s, created_id), next)->0 is CreateIncident,
{
}

/// The id that a creation returned is the open incident afterwards, and the
/// following incident statuses update it.
pub proof fn created_incident_stays_open(r: RecorderView, s: StatusView, id: i64, next: StatusView)
    requires
        r.open_incident_id is None,
        s.observed_at is Some,
        s.lifecycle == Some(DiagnosticLifecycle::Incident),
        next.observed_at is Some,
        next.lifecycle == Some(DiagnosticLifecycle::Incident) || next.lifecycle == Some(
            DiagnosticLifecycle::Recovering,
        ),
    ensures
        after_commit(r, s, Some(id)).open_incident_id == Some(id),
        incident_plan(after_commit(r, s, Some(id)), next) matches Some(
            CommandView::UpdateIncident { id: updated, .. },
        ) && updated == id,
{
}

/// An incident record carries the area the status suspects: whenever the
/// status names a suspected area, a planned creation or update of the
/// record is written with that area, and a created record's summary speaks
/// of the same area as the record.
pub proof fn incident_records_keep_the_suspected_area(r: RecorderView, s: StatusView)
    ensures
        s.suspected_area is Some ==> match incident_plan(r, s) {
            Some(CommandView::CreateIncident { area, .. }) => Some(area) == s.suspected_area,
            Some(CommandView::UpdateIncident { area, .. }) => Some(area) == s.suspected_area,
            _ => true,
        },
        match incident_plan(r, s) {
            Some(CommandView::CreateIncident { area, summary, .. }) => summary == summary_text(
                area,
                NetworkIncidentStatus::Ongoing,
            ),
            _ => true,
        },
{
}

} // verus!
