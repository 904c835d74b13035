use vstd::prelude::*;
use crate::text::{joined, opt_text, str_eq};

verus! {

/// Outcome of a single network probe.
#[derive(Clone, Copy, Debug, PartialEq, Eq, Structural)]
pub enum ProbeStatus {
    Success,
    Timeout,
    NotRun,
    Unsupported,
    Error,
}

/// Whether the background diagnostics runtime is able to report.
#[derive(Clone, Copy, Debug, PartialEq, Eq, Structural)]
pub enum RuntimeAvailability {
    Starting,
    Running,
    Unavailable,
    Error,
}

// ---------------------------------------------------------------------------
// DiagnosticLifecycle
// ---------------------------------------------------------------------------

/// Lifecycle of a suspected network fault.
#[derive(Clone, Copy, Debug, PartialEq, Eq, Structural)]
pub enum DiagnosticLifecycle {
    Normal,
    Suspected,
    Incident,
    Recovering,
    Resolved,
}

/// Wire name of a lifecycle.
pub open spec fn lifecycle_text(l: DiagnosticLifecycle) -> Seq<char> {
    match l {
        DiagnosticLifecycle::Normal => "normal"@,
        DiagnosticLifecycle::Suspected => "suspected"@,
        DiagnosticLifecycle::Incident => "incident"@,
        DiagnosticLifecycle::Recovering => "recovering"@,
        DiagnosticLifecycle::Resolved => "resolved"@,
    }
}

/// The lifecycle whose wire name is `s`, if any.
pub open spec fn parse_lifecycle(s: Seq<char>) -> Option<DiagnosticLifecycle> {
    if s == "normal"@ {
        Some(DiagnosticLifecycle::Normal)
    } else if s == "suspected"@ {
        Some(DiagnosticLifecycle::Suspected)
    } else if s == "incident"@ {
        Some(DiagnosticLifecycle::Incident)
    } else if s == "recovering"@ {
        Some(DiagnosticLifecycle::Recovering)
    } else if s == "resolved"@ {
        Some(DiagnosticLifecycle::Resolved)
    } else {
        None
    }
}

impl DiagnosticLifecycle {
    pub fn as_str(&self) -> (r: &'static str)
        ensures
            r@ == lifecycle_text(*self),
    {
        match self {
            DiagnosticLifecycle::Normal => "normal",
            DiagnosticLifecycle::Suspected => "suspected",
            DiagnosticLifecycle::Incident => "incident",
            DiagnosticLifecycle::Recovering => "recovering",
            DiagnosticLifecycle::Resolved => "resolved",
        }
    }

    pub fn from_str(value: &str) -> (r: Result<Self, String>)
        ensures
            match r {
                Ok(l) => parse_lifecycle(value@) == Some(l),
                Err(e) => parse_lifecycle(value@) is None
                    && e@ == "unknown diagnostic lifecycle: "@ + value@,
            },
    {
        if str_eq(value, "normal") {
            Ok(DiagnosticLifecycle::Normal)
        } else if str_eq(value, "suspected") {
            Ok(DiagnosticLifecycle::Suspected)
        } else if str_eq(value, "incident") {
            Ok(DiagnosticLifecycle::Incident)
        } else if str_eq(value, "recovering") {
            Ok(DiagnosticLifecycle::Recovering)
        } else if str_eq(value, "resolved") {
            Ok(DiagnosticLifecycle::Resolved)
        } else {
            Err(joined("unknown diagnostic lifecycle: ", value))
        }
    }
}

/// Reading back the wire name of a lifecycle gives the same lifecycle, and
/// only wire names parse.
pub proof fn lifecycle_text_round_trip(l: DiagnosticLifecycle, s: Seq<char>)
    ensures
        parse_lifecycle(lifecycle_text(l)) == Some(l),
        parse_lifecycle(s) matches Some(m) ==> lifecycle_text(m) == s,
{
    reveal_strlit("normal");
    reveal_strlit("suspected");
    reveal_strlit("incident");
    reveal_strlit("recovering");
    reveal_strlit("resolved");
    assert("normal"@.len() == 6);
    assert("suspected"@.len() == 9);
    assert("incident"@.len() == 8);
    assert("recovering"@.len() == 10);
    assert("resolved"@.len() == 8);
    assert("incident"@[0] != "resolved"@[0]);
}

// ---------------------------------------------------------------------------
// DiagnosticArea
// ---------------------------------------------------------------------------

/// The network segment that the evidence points at.
#[derive(Clone, Copy, Debug, PartialEq, Eq, Structural)]
pub enum DiagnosticArea {
    LocalConnection,
    GatewayOrLocal,
    Dns,
    External,
    Unknown,
}

pub open spec fn area_text(a: DiagnosticArea) -> Seq<char> {
    match a {
        DiagnosticArea::LocalConnection => "local_connection"@,
        DiagnosticArea::GatewayOrLocal => "gateway_or_local"@,
        DiagnosticArea::Dns => "dns"@,
        DiagnosticArea::External => "external"@,
        DiagnosticArea::Unknown => "unknown"@,
    }
}

pub open spec fn parse_area(s: Seq<char>) -> Option<DiagnosticArea> {
    if s == "local_connection"@ {
        Some(DiagnosticArea::LocalConnection)
    } else if s == "gateway_or_local"@ {
        Some(DiagnosticArea::GatewayOrLocal)
    } else if s == "dns"@ {
        Some(DiagnosticArea::Dns)
    } else if s == "external"@ {
        Some(DiagnosticArea::External)
    } else if s == "unknown"@ {
        Some(DiagnosticArea::Unknown)
    } else {
        None
    }
}

impl DiagnosticArea {
    pub fn as_str(&self) -> (r: &'static str)
        ensures
            r@ == area_text(*self),
    {
        match self {
            DiagnosticArea::LocalConnection => "local_connection",
            DiagnosticArea::GatewayOrLocal => "gateway_or_local",
            DiagnosticArea::Dns => "dns",
            DiagnosticArea::External => "external",
            DiagnosticArea::Unknown => "unknown",
        }
    }

    pub fn from_str(value: &str) -> (r: Result<Self, String>)
        ensures
            match r {
                Ok(a) => parse_area(value@) == Some(a),
                Err(e) => parse_area(value@) is None && e@ == "unknown diagnostic area: "@
                    + value@,
            },
    {
        if str_eq(value, "local_connection") {
            Ok(DiagnosticArea::LocalConnection)
        } else if str_eq(value, "gateway_or_local") {
            Ok(DiagnosticArea::GatewayOrLocal)
        } else if str_eq(value, "dns") {
            Ok(DiagnosticArea::Dns)
        } else if str_eq(value, "external") {
            Ok(DiagnosticArea::External)
        } else if str_eq(value, "unknown") {
            Ok(DiagnosticArea::Unknown)
        } else {
            Err(joined("unknown diagnostic area: ", value))
        }
    }
}

/// Reading back the wire name of an area gives the same area, and only wire
/// names parse.
pub proof fn area_text_round_trip(a: DiagnosticArea, s: Seq<char>)
    ensures
        parse_area(area_text(a)) == Some(a),
        parse_area(s) matches Some(b) ==> area_text(b) == s,
{
    reveal_strlit("local_connection");
    reveal_strlit("gateway_or_local");
    reveal_strlit("dns");
    reveal_strlit("external");
    reveal_strlit("unknown");
    assert("local_connection"@.len() == 16);
    assert("gateway_or_local"@.len() == 16);
    assert("dns"@.len() == 3);
    assert("external"@.len() == 8);
    assert("unknown"@.len() == 7);
    assert("local_connection"@[0] != "gateway_or_local"@[0]);
}

// ---------------------------------------------------------------------------
// EvidenceSource
// ---------------------------------------------------------------------------

/// Which observation a piece of evidence comes from.
#[derive(Clone, Copy, Debug, PartialEq, Eq, Structural)]
pub enum EvidenceSource {
    Ethernet,
    Ipv4,
    DefaultRoute,
    Gateway,
    DnsMicrosoft,
    DnsGoogle,
    HttpMicrosoft,
    HttpGoogle,
}

pub open spec fn source_text(s: EvidenceSource) -> Seq<char> {
    match s {
        EvidenceSource::Ethernet => "ethernet"@,
        EvidenceSource::Ipv4 => "ipv4"@,
        EvidenceSource::DefaultRoute => "default_route"@,
        EvidenceSource::Gateway => "gateway"@,
        EvidenceSource::DnsMicrosoft => "dns_microsoft"@,
        EvidenceSource::DnsGoogle => "dns_google"@,
        EvidenceSource::HttpMicrosoft => "http_microsoft"@,
        EvidenceSource::HttpGoogle => "http_google"@,
    }
}

pub open spec fn parse_source(s: Seq<char>) -> Option<EvidenceSource> {
    if s == "ethernet"@ {
        Some(EvidenceSource::Ethernet)
    } else if s == "ipv4"@ {
        Some(EvidenceSource::Ipv4)
    } else if s == "default_route"@ {
        Some(EvidenceSource::DefaultRoute)
    } else if s == "gateway"@ {
        Some(EvidenceSource::Gateway)
    } else if s == "dns_microsoft"@ {
        Some(EvidenceSource::DnsMicrosoft)
    } else if s == "dns_google"@ {
        Some(EvidenceSource::DnsGoogle)
    } else if s == "http_microsoft"@ {
        Some(EvidenceSource::HttpMicrosoft)
    } else if s == "http_google"@ {
        Some(EvidenceSource::HttpGoogle)
    } else {
        None
    }
}

impl EvidenceSource {
    pub fn as_str(&self) -> (r: &'static str)
        ensures
            r@ == source_text(*self),
    {
        match self {
            EvidenceSource::Ethernet => "ethernet",
            EvidenceSource::Ipv4 => "ipv4",
            EvidenceSource::DefaultRoute => "default_route",
            EvidenceSource::Gateway => "gateway",
            EvidenceSource::DnsMicrosoft => "dns_microsoft",
            EvidenceSource::DnsGoogle => "dns_google",
            EvidenceSource::HttpMicrosoft => "http_microsoft",
            EvidenceSource::HttpGoogle => "http_google",
        }
    }

    pub fn from_str(value: &str) -> (r: Result<Self, String>)
        ensures
            match r {
                Ok(s) => parse_source(value@) == Some(s),
                Err(e) => parse_source(value@) is None && e@ == "unknown evidence source: "@
                    + value@,
            },
    {
        if str_eq(value, "ethernet") {
            Ok(EvidenceSource::Ethernet)
        } else if str_eq(value, "ipv4") {
            Ok(EvidenceSource::Ipv4)
        } else if str_eq(value, "default_route") {
            Ok(EvidenceSource::DefaultRoute)
        } else if str_eq(value, "gateway") {
            Ok(EvidenceSource::Gateway)
        } else if str_eq(value, "dns_microsoft") {
            Ok(EvidenceSource::DnsMicrosoft)
        } else if str_eq(value, "dns_google") {
            Ok(EvidenceSource::DnsGoogle)
        } else if str_eq(value, "http_microsoft") {
            Ok(EvidenceSource::HttpMicrosoft)
        } else if str_eq(value, "http_google") {
            Ok(EvidenceSource::HttpGoogle)
        } else {
            Err(joined("unknown evidence source: ", value))
        }
    }
}

/// Reading back the wire name of a source gives the same source, and only
/// wire names parse.
pub proof fn source_text_round_trip(e: EvidenceSource, s: Seq<char>)
    ensures
        parse_source(source_text(e)) == Some(e),
        parse_source(s) matches Some(f) ==> source_text(f) == s,
{
    reveal_strlit("ethernet");
    reveal_strlit("ipv4");
    reveal_strlit("default_route");
    reveal_strlit("gateway");
    reveal_strlit("dns_microsoft");
    reveal_strlit("dns_google");
    reveal_strlit("http_microsoft");
    reveal_strlit("http_google");
    assert("ethernet"@.len() == 8);
    assert("ipv4"@.len() == 4);
    assert("default_route"@.len() == 13);
    assert("gateway"@.len() == 7);
    assert("dns_microsoft"@.len() == 13);
    assert("dns_google"@.len() == 10);
    assert("http_microsoft"@.len() == 14);
    assert("http_google"@.len() == 11);
    assert("default_route"@[1] != "dns_microsoft"@[1]);
}

// ---------------------------------------------------------------------------
// EvidenceStatus
// ---------------------------------------------------------------------------

/// What a piece of evidence showed.
#[derive(Clone, Copy, Debug, PartialEq, Eq, Structural)]
pub enum EvidenceStatus {
    Success,
    Failure,
    Timeout,
    Unavailable,
    NotChecked,
}

pub open spec fn evidence_status_text(s: EvidenceStatus) -> Seq<char> {
    match s {
        EvidenceStatus::Success => "success"@,
        EvidenceStatus::Failure => "failure"@,
        EvidenceStatus::Timeout => "timeout"@,
        EvidenceStatus::Unavailable => "unavailable"@,
        EvidenceStatus::NotChecked => "not_checked"@,
    }
}

pub open spec fn parse_evidence_status(s: Seq<char>) -> Option<EvidenceStatus> {
    if s == "success"@ {
        Some(EvidenceStatus::Success)
    } else if s == "failure"@ {
        Some(EvidenceStatus::Failure)
    } else if s == "timeout"@ {
        Some(EvidenceStatus::Timeout)
    } else if s == "unavailable"@ {
        Some(EvidenceStatus::Unavailable)
    } else if s == "not_checked"@ {
        Some(EvidenceStatus::NotChecked)
    } else {
        None
    }
}

impl EvidenceStatus {
    pub fn as_str(&self) -> (r: &'static str)
        ensures
            r@ == evidence_status_text(*self),
    {
        match self {
            EvidenceStatus::Success => "success",
            EvidenceStatus::Failure => "failure",
            EvidenceStatus::Timeout => "timeout",
            EvidenceStatus::Unavailable => "unavailable",
            EvidenceStatus::NotChecked => "not_checked",
        }
    }

    pub fn from_str(value: &str) -> (r: Result<Self, String>)
        ensures
            match r {
                Ok(s) => parse_evidence_status(value@) == Some(s),
                Err(e) => parse_evidence_status(value@) is None
                    && e@ == "unknown evidence status: "@ + value@,
            },
    {
        if str_eq(value, "success") {
            Ok(EvidenceStatus::Success)
        } else if str_eq(value, "failure") {
            Ok(EvidenceStatus::Failure)
        } else if str_eq(value, "timeout") {
            Ok(EvidenceStatus::Timeout)
        } else if str_eq(value, "unavailable") {
            Ok(EvidenceStatus::Unavailable)
        } else if str_eq(value, "not_checked") {
            Ok(EvidenceStatus::NotChecked)
        } else {
            Err(joined("unknown evidence status: ", value))
        }
    }
}

/// Reading back the wire name of an evidence status gives the same status,
/// and only wire names parse.
pub proof fn evidence_status_text_round_trip(e: EvidenceStatus, s: Seq<char>)
    ensures
        parse_evidence_status(evidence_status_text(e)) == Some(e),
        parse_evidence_status(s) matches Some(f) ==> evidence_status_text(f) == s,
{
    reveal_strlit("success");
    reveal_strlit("failure");
    reveal_strlit("timeout");
    reveal_strlit("unavailable");
    reveal_strlit("not_checked");
    assert("success"@.len() == 7);
    assert("failure"@.len() == 7);
    assert("timeout"@.len() == 7);
    assert("unavailable"@.len() == 11);
    assert("not_checked"@.len() == 11);
    assert("success"@[0] != "failure"@[0]);
    assert("success"@[0] != "timeout"@[0]);
    assert("failure"@[0] != "timeout"@[0]);
    assert("unavailable"@[0] != "not_checked"@[0]);
}

// ---------------------------------------------------------------------------
// NetworkIncidentStatus
// ---------------------------------------------------------------------------

/// Status of a recorded incident.
#[derive(Clone, Copy, Debug, PartialEq, Eq, Structural)]
pub enum NetworkIncidentStatus {
    Ongoing,
    Recovering,
    Resolved,
}

pub open spec fn incident_status_text(s: NetworkIncidentStatus) -> Seq<char> {
    match s {
        NetworkIncidentStatus::Ongoing => "ongoing"@,
        NetworkIncidentStatus::Recovering => "recovering"@,
        NetworkIncidentStatus::Resolved => "resolved"@,
    }
}

pub open spec fn parse_incident_status(s: Seq<char>) -> Option<NetworkIncidentStatus> {
    if s == "ongoing"@ {
        Some(NetworkIncidentStatus::Ongoing)
    } else if s == "recovering"@ {
        Some(NetworkIncidentStatus::Recovering)
    } else if s == "resolved"@ {
        Some(NetworkIncidentStatus::Resolved)
    } else {
        None
    }
}

impl NetworkIncidentStatus {
    pub fn as_str(&self) -> (r: &'static str)
        ensures
            r@ == incident_status_text(*self),
    {
        match self {
            NetworkIncidentStatus::Ongoing => "ongoing",
            NetworkIncidentStatus::Recovering => "recovering",
            NetworkIncidentStatus::Resolved => "resolved",
        }
    }

    pub fn from_str(value: &str) -> (r: Result<Self, String>)
        ensures
            match r {
                Ok(s) => parse_incident_status(value@) == Some(s),
                Err(e) => parse_incident_status(value@) is None
                    && e@ == "unknown incident status: "@ + value@,
            },
    {
        if str_eq(value, "ongoing") {
            Ok(NetworkIncidentStatus::Ongoing)
        } else if str_eq(value, "recovering") {
            Ok(NetworkIncidentStatus::Recovering)
        } else if str_eq(value, "resolved") {
            Ok(NetworkIncidentStatus::Resolved)
        } else {
            Err(joined("unknown incident status: ", value))
        }
    }
}

/// Reading back the wire name of an incident status gives the same status,
/// and only wire names parse.
pub proof fn incident_status_text_round_trip(e: NetworkIncidentStatus, s: Seq<char>)
    ensures
        parse_incident_status(incident_status_text(e)) == Some(e),
        parse_incident_status(s) matches Some(f) ==> incident_status_text(f) == s,
{
    reveal_strlit("ongoing");
    reveal_strlit("recovering");
    reveal_strlit("resolved");
    assert("ongoing"@.len() == 7);
    assert("recovering"@.len() == 10);
    assert("resolved"@.len() == 8);
}


// ---------------------------------------------------------------------------
// Records
// ---------------------------------------------------------------------------

/// A failure reported by a probe or by the runtime.
#[derive(Debug, PartialEq, Eq)]
pub struct ProbeError {
    pub stage: String,
    pub code: String,
    pub message: String,
    pub native_code: Option<u32>,
}

#[verifier::ext_equal]
pub struct ProbeErrorView {
    pub stage: Seq<char>,
    pub code: Seq<char>,
    pub message: Seq<char>,
    pub native_code: Option<u32>,
}

impl View for ProbeError {
    type V = ProbeErrorView;

    open spec fn view(&self) -> ProbeErrorView {
        ProbeErrorView {
            stage: self.stage@,
            code: self.code@,
            message: self.message@,
            native_code: self.native_code,
        }
    }
}

impl Clone for ProbeError {
    fn clone(&self) -> (r: Self)
        ensures
            r == *self,
    {
        ProbeError {
            stage: self.stage.clone(),
            code: self.code.clone(),
            message: self.message.clone(),
            native_code: self.native_code,
        }
    }
}

pub open spec fn opt_error_view(e: Option<ProbeError>) -> Option<ProbeErrorView> {
    match e {
        Some(e) => Some(e@),
        None => None,
    }
}

/// One observation that supports (or fails to support) a diagnosis.
#[derive(Debug, PartialEq, Eq)]
pub struct DiagnosticEvidence {
    pub source: EvidenceSource,
    pub status: EvidenceStatus,
    pub checked_at: Option<String>,
    pub duration_ms: Option<u64>,
    pub detail: Option<String>,
}

#[verifier::ext_equal]
pub struct EvidenceView {
    pub source: EvidenceSource,
    pub status: EvidenceStatus,
    pub checked_at: Option<Seq<char>>,
    pub duration_ms: Option<u64>,
    pub detail: Option<Seq<char>>,
}

impl View for DiagnosticEvidence {
    type V = EvidenceView;

    open spec fn view(&self) -> EvidenceView {
        EvidenceView {
            source: self.source,
            status: self.status,
            checked_at: opt_text(self.checked_at),
            duration_ms: self.duration_ms,
            detail: opt_text(self.detail),
        }
    }
}

impl Clone for DiagnosticEvidence {
    fn clone(&self) -> (r: Self)
        ensures
            r == *self,
    {
        DiagnosticEvidence {
            source: self.source,
            status: self.status,
            checked_at: self.checked_at.clone(),
            duration_ms: self.duration_ms,
            detail: self.detail.clone(),
        }
    }
}

/// The views of a list of evidence items.
pub open spec fn evidence_views(v: Seq<DiagnosticEvidence>) -> Seq<EvidenceView> {
    v.map_values(|e: DiagnosticEvidence| e@)
}

/// A copy of an evidence list.
pub fn clone_evidence(v: &Vec<DiagnosticEvidence>) -> (r: Vec<DiagnosticEvidence>)
    ensures
        r@ == v@,
{
    let r = v.clone();
    assert(r@ =~= v@);
    r
}

/// What the diagnostics runtime currently reports.
#[derive(Debug, PartialEq, Eq)]
pub struct NetworkDiagnosticStatus {
    pub availability: RuntimeAvailability,
    pub lifecycle: Option<DiagnosticLifecycle>,
    pub suspected_area: Option<DiagnosticArea>,
    pub observed_at: Option<String>,
    pub last_full_probe_at: Option<String>,
    pub evidence: Vec<DiagnosticEvidence>,
    pub error: Option<ProbeError>,
}

#[verifier::ext_equal]
pub struct StatusView {
    pub availability: RuntimeAvailability,
    pub lifecycle: Option<DiagnosticLifecycle>,
    pub suspected_area: Option<DiagnosticArea>,
    pub observed_at: Option<Seq<char>>,
    pub last_full_probe_at: Option<Seq<char>>,
    pub evidence: Seq<EvidenceView>,
    pub error: Option<ProbeErrorView>,
}

impl View for NetworkDiagnosticStatus {
    type V = StatusView;

    open spec fn view(&self) -> StatusView {
        StatusView {
            availability: self.availability,
            lifecycle: self.lifecycle,
            suspected_area: self.suspected_area,
            observed_at: opt_text(self.observed_at),
            last_full_probe_at: opt_text(self.last_full_probe_at),
            evidence: evidence_views(self.evidence@),
            error: opt_error_view(self.error),
        }
    }
}

impl Clone for NetworkDiagnosticStatus {
    fn clone(&self) -> (r: Self)
        ensures
            r@ == self@,
            r.evidence@ == self.evidence@,
            r.error == self.error,
            r.observed_at == self.observed_at,
            r.last_full_probe_at == self.last_full_probe_at,
    {
        NetworkDiagnosticStatus {
            availability: self.availability,
            lifecycle: self.lifecycle,
            suspected_area: self.suspected_area,
            observed_at: self.observed_at.clone(),
            last_full_probe_at: self.last_full_probe_at.clone(),
            evidence: clone_evidence(&self.evidence),
            error: self.error.clone(),
        }
    }
}

impl NetworkDiagnosticStatus {
    /// The view of the status before any observation.
    pub open spec fn starting_view() -> StatusView {
        StatusView {
            availability: RuntimeAvailability::Starting,
            lifecycle: None,
            suspected_area: None,
            observed_at: None,
            last_full_probe_at: None,
            evidence: Seq::empty(),
            error: None,
        }
    }

    /// The status before any observation: the runtime is starting and
    /// nothing has been observed or invented.
    pub fn starting() -> (r: Self)
        ensures
            r@ == Self::starting_view(),
    {
        let r = NetworkDiagnosticStatus {
            availability: RuntimeAvailability::Starting,
            lifecycle: None,
            suspected_area: None,
            observed_at: None,
            last_full_probe_at: None,
            evidence: Vec::new(),
            error: None,
        };
        assert(r@.evidence =~= Seq::<EvidenceView>::empty());
        r
    }
}

/// Evidence stored with an incident, stamped with the observation time.
#[derive(Clone, Debug, PartialEq, Eq)]
pub struct NetworkIncidentEvidence {
    pub source: EvidenceSource,
    pub status: EvidenceStatus,
    pub checked_at: Option<String>,
    pub duration_ms: Option<u64>,
    pub detail: Option<String>,
    pub observed_at: String,
}

/// A confirmed network incident as recorded in the history.
#[derive(Clone, Debug, PartialEq, Eq)]
pub struct NetworkIncident {
    pub id: i64,
    pub status: NetworkIncidentStatus,
    pub area: DiagnosticArea,
    pub started_at: String,
    pub last_observed_at: String,
    pub resolved_at: Option<String>,
    pub summary: String,
    pub representative_evidence: Vec<NetworkIncidentEvidence>,
}

/// A network adapter as seen by the inventory.
#[derive(Clone, Debug, PartialEq, Eq)]
pub struct AdapterSnapshot {
    pub name: String,
    pub friendly_name: String,
    pub interface_index: u32,
    pub if_type: u32,
    pub operational_status: String,
    pub mac_address: Option<String>,
    pub ipv4_addresses: Vec<String>,
}

/// An IPv4 default route joined with its adapter.
#[derive(Debug, PartialEq, Eq)]
pub struct RouteSnapshot {
    pub interface_index: u32,
    pub gateway: String,
    pub route_metric: u32,
    pub interface_metric: u32,
    pub combined_metric: u32,
    pub adapter_is_ethernet: bool,
    pub adapter_is_up: bool,
}

impl Clone for RouteSnapshot {
    fn clone(&self) -> (r: Self)
        ensures
            r == *self,
    {
        RouteSnapshot {
            interface_index: self.interface_index,
            gateway: self.gateway.clone(),
            route_metric: self.route_metric,
            interface_metric: self.interface_metric,
            combined_metric: self.combined_metric,
            adapter_is_ethernet: self.adapter_is_ethernet,
            adapter_is_up: self.adapter_is_up,
        }
    }
}

/// Result of pinging the default gateway.
#[derive(Clone, Debug, PartialEq, Eq)]
pub struct GatewayCheck {
    pub status: ProbeStatus,
    pub duration_ms: u64,
    pub reply_address: Option<String>,
    pub round_trip_ms: Option<u32>,
    pub error: Option<ProbeError>,
}

/// Result of resolving one connectivity host name.
#[derive(Clone, Debug, PartialEq, Eq)]
pub struct DnsCheck {
    pub hostname: String,
    pub status: ProbeStatus,
    pub duration_ms: u64,
    pub addresses: Vec<String>,
    pub error: Option<ProbeError>,
}

/// Result of fetching one connectivity endpoint.
#[derive(Clone, Debug, PartialEq, Eq)]
pub struct HttpCheck {
    pub url: String,
    pub status: ProbeStatus,
    pub duration_ms: u64,
    pub status_code: Option<u16>,
    pub body_matches: Option<bool>,
    pub error: Option<ProbeError>,
}

/// Everything one probe round collected.
#[derive(Clone, Debug, PartialEq, Eq)]
pub struct NetworkProbeSnapshot {
    pub collected_at: String,
    pub collector: String,
    pub duration_ms: u64,
    pub adapters: Vec<AdapterSnapshot>,
    pub default_routes: Vec<RouteSnapshot>,
    pub selected_route: Option<RouteSnapshot>,
    pub gateway_check: GatewayCheck,
    pub dns_checks: Vec<DnsCheck>,
    pub http_checks: Vec<HttpCheck>,
    pub errors: Vec<ProbeError>,
}

// ---------------------------------------------------------------------------
// Default route selection
// ---------------------------------------------------------------------------

/// `false` sorts before `true`.
pub open spec fn bool_before(a: bool, b: bool) -> bool {
    !a && b
}

/// Route `a` is strictly preferred to route `b`: an up wired adapter first,
/// then any up adapter, then the lower combined metric, then the lower
/// interface index.
pub open spec fn route_preferred(a: RouteSnapshot, b: RouteSnapshot) -> bool {
    let a1 = !(a.adapter_is_up && a.adapter_is_ethernet);
    let b1 = !(b.adapter_is_up && b.adapter_is_ethernet);
    let a2 = !a.adapter_is_up;
    let b2 = !b.adapter_is_up;
    ||| bool_before(a1, b1)
    ||| a1 == b1 && bool_before(a2, b2)
    ||| a1 == b1 && a2 == b2 && a.combined_metric < b.combined_metric
    ||| a1 == b1 && a2 == b2 && a.combined_metric == b.combined_metric && a.interface_index
        < b.interface_index
}

/// The route that a left-to-right scan keeps: a later route replaces the
/// current choice only when it is strictly preferred.
pub open spec fn chosen_route(routes: Seq<RouteSnapshot>) -> Option<RouteSnapshot>
    decreases routes.len(),
{
    if routes.len() == 0 {
        None
    } else {
        match chosen_route(routes.drop_last()) {
            None => Some(routes.last()),
            Some(best) => if route_preferred(routes.last(), best) {
                Some(routes.last())
            } else {
                Some(best)
            },
        }
    }
}

/// Picks the default route that network checks should use.
pub fn select_default_route(routes: &[RouteSnapshot]) -> (r: Option<RouteSnapshot>)
    ensures
        r == chosen_route(routes@),
{
    let mut best: Option<usize> = None;
    let mut i: usize = 0;
    while i < routes.len()
        invariant
            i <= routes@.len(),
            match best {
                None => chosen_route(routes@.take(i as int)) is None,
                Some(b) => b < i && chosen_route(routes@.take(i as int)) == Some(routes@[b as int]),
            },
        decreases routes@.len() - i,
    {
        assert(routes@.take(i + 1).drop_last() =~= routes@.take(i as int));
        match best {
            None => {
                best = Some(i);
            },
            Some(b) => {
                if preferred(&routes[i], &routes[b]) {
                    best = Some(i);
                }
            },
        }
        i += 1;
    }
    assert(routes@.take(routes@.len() as int) =~= routes@);
    match best {
        None => None,
        Some(b) => Some(routes[b].clone()),
    }
}

fn preferred(a: &RouteSnapshot, b: &RouteSnapshot) -> (r: bool)
    ensures
        r == route_preferred(*a, *b),
{
    let a1 = !(a.adapter_is_up && a.adapter_is_ethernet);
    let b1 = !(b.adapter_is_up && b.adapter_is_ethernet);
    let a2 = !a.adapter_is_up;
    let b2 = !b.adapter_is_up;
    if a1 != b1 {
        !a1
    } else if a2 != b2 {
        !a2
    } else if a.combined_metric != b.combined_metric {
        a.combined_metric < b.combined_metric
    } else {
        a.interface_index < b.interface_index
    }
}

/// The chosen default route is one of the candidates, no candidate is
/// strictly preferred to it, and every earlier candidate is strictly worse
/// (so among equally preferred routes the first one wins); there is a
/// choice exactly when there is a candidate.
pub proof fn chosen_route_is_first_best(routes: Seq<RouteSnapshot>)
    ensures
        chosen_route(routes) is None <==> routes.len() == 0,
        chosen_route(routes) matches Some(r) ==> exists|i: int|
            0 <= i < routes.len() && routes[i] == r
                && (forall|j: int| 0 <= j < routes.len() ==> !route_preferred(#[trigger] routes[j], r))
                && (forall|j: int| 0 <= j < i ==> route_preferred(r, #[trigger] routes[j])),
    decreases routes.len(),
{
    if routes.len() > 0 {
        let prefix = routes.drop_last();
        chosen_route_is_first_best(prefix);
        match chosen_route(prefix) {
            None => {
                assert(prefix.len() == 0);
                let i = 0int;
                assert(routes[i] == routes.last());
                assert forall|j: int| 0 <= j < routes.len() implies !route_preferred(#[trigger] routes[j], routes.last()) by {
                    assert(j == 0);
                }
            },
            Some(best) => {
                let k = choose|k: int|
                    0 <= k < prefix.len() && prefix[k] == best
                        && (forall|j: int| 0 <= j < prefix.len() ==> !route_preferred(#[trigger] prefix[j], best))
                        && (forall|j: int| 0 <= j < k ==> route_preferred(best, #[trigger] prefix[j]));
                if route_preferred(routes.last(), best) {
                    let i = routes.len() - 1;
                    assert forall|j: int| 0 <= j < routes.len() implies !route_preferred(#[trigger] routes[j], routes.last()) by {
                        if j < i {
                            assert(prefix[j] == routes[j]);
                        }
                    }
                    assert forall|j: int| 0 <= j < i implies route_preferred(routes.last(), #[trigger] routes[j]) by {
                        assert(prefix[j] == routes[j]);
                        assert(!route_preferred(prefix[j], best));
                    }
                    assert(routes[i] == routes.last());
                } else {
                    assert(routes[k] == best);
                    assert forall|j: int| 0 <= j < routes.len() implies !route_preferred(#[trigger] routes[j], best) by {
                        if j < routes.len() - 1 {
                            assert(prefix[j] == routes[j]);
                        }
                    }
                    assert forall|j: int| 0 <= j < k implies route_preferred(best, #[trigger] routes[j]) by {
                        assert(prefix[j] == routes[j]);
                    }
                }
            },
        }
    }
}

/// The chosen default route is the best by the adapter and then the
/// metric: an up wired route when there is one, else an up route when there
/// is one; and among the routes with the same adapter standing, none has a
/// lower combined metric, nor, at the same combined metric, a lower
/// interface index.
pub proof fn chosen_route_has_the_least_metric(routes: Seq<RouteSnapshot>)
    ensures
        chosen_route(routes) matches Some(r) ==> {
            &&& (exists|j: int|
                0 <= j < routes.len() && #[trigger] routes[j].adapter_is_up
                    && routes[j].adapter_is_ethernet) ==> r.adapter_is_up && r.adapter_is_ethernet
            &&& (exists|j: int| 0 <= j < routes.len() && #[trigger] routes[j].adapter_is_up)
                ==> r.adapter_is_up
            &&& forall|j: int|
                0 <= j < routes.len() && (#[trigger] routes[j]).adapter_is_up == r.adapter_is_up
                    && (routes[j].adapter_is_up && routes[j].adapter_is_ethernet) == (
                r.adapter_is_up && r.adapter_is_ethernet) ==> {
                    &&& r.combined_metric <= routes[j].combined_metric
                    &&& r.combined_metric == routes[j].combined_metric ==> r.interface_index
                        <= routes[j].interface_index
                }
        },
{
    chosen_route_is_first_best(routes);
    if let Some(r) = chosen_route(routes) {
        assert forall|j: int| 0 <= j < routes.len() implies !route_preferred(
            #[trigger] routes[j],
            r,
        ) by {}
        if exists|j: int|
            0 <= j < routes.len() && #[trigger] routes[j].adapter_is_up
                && routes[j].adapter_is_ethernet {
            let j = choose|j: int|
                0 <= j < routes.len() && #[trigger] routes[j].adapter_is_up
                    && routes[j].adapter_is_ethernet;
            assert(!route_preferred(routes[j], r));
        }
        if exists|j: int| 0 <= j < routes.len() && #[trigger] routes[j].adapter_is_up {
            let j = choose|j: int| 0 <= j < routes.len() && #[trigger] routes[j].adapter_is_up;
            assert(!route_preferred(routes[j], r));
        }
    }
}

} // verus!
