use vstd::prelude::*;
use crate::text::{
    char_prefix, decimal_text, join_texts, joined_text, opt_text, owned, prefix_chars, str_eq,
    texts, with_decimal,
};
use super::collector::{GOOGLE_HOSTNAME, GOOGLE_URL, MICROSOFT_HOSTNAME, MICROSOFT_URL};
use super::domain::{
    evidence_views, AdapterSnapshot, DiagnosticArea, DiagnosticEvidence, DnsCheck,
    EvidenceSource, EvidenceStatus, EvidenceView, HttpCheck, NetworkProbeSnapshot, ProbeError,
    ProbeStatus, RouteSnapshot,
};

verus! {

/// Interface type of an Ethernet adapter.
pub const ETHERNET_IF_TYPE: u32 = 6;

/// Longest evidence detail kept, in characters.
pub const MAX_DETAIL_CHARS: usize = 256;

// ---------------------------------------------------------------------------
// The model of an assessment
// ---------------------------------------------------------------------------

/// Some wired adapter is up.
pub open spec fn active_ethernet(adapters: Seq<AdapterSnapshot>) -> bool {
    exists|i: int|
        0 <= i < adapters.len() && #[trigger] adapters[i].if_type == ETHERNET_IF_TYPE
            && adapters[i].operational_status@ == "up"@
}

/// Some wired adapter is up and holds an IPv4 address.
pub open spec fn active_ipv4(adapters: Seq<AdapterSnapshot>) -> bool {
    exists|i: int|
        0 <= i < adapters.len() && #[trigger] adapters[i].if_type == ETHERNET_IF_TYPE
            && adapters[i].operational_status@ == "up"@ && adapters[i].ipv4_addresses@.len() > 0
}

/// The selected default route leaves through an up wired adapter and names
/// a gateway.
pub open spec fn wired_default_route(route: Option<RouteSnapshot>) -> bool {
    match route {
        Some(r) => r.adapter_is_ethernet && r.adapter_is_up && r.gateway@.len() > 0,
        None => false,
    }
}

/// The evidence for a topology fact (adapter, address, route). A missing
/// fact counts as checked only when the inventory itself was read without
/// error; otherwise it is unavailable.
pub open spec fn topology_evidence(
    source: EvidenceSource,
    present: bool,
    inventory_failed: bool,
    at: Seq<char>,
) -> EvidenceView {
    EvidenceView {
        source,
        status: if present {
            EvidenceStatus::Success
        } else if inventory_failed {
            EvidenceStatus::Unavailable
        } else {
            EvidenceStatus::Failure
        },
        checked_at: if present || !inventory_failed {
            Some(at)
        } else {
            None
        },
        duration_ms: None,
        detail: None,
    }
}

/// A probe actually ran (it succeeded, timed out or failed).
pub open spec fn probe_ran(status: ProbeStatus) -> bool {
    status == ProbeStatus::Success || status == ProbeStatus::Timeout || status
        == ProbeStatus::Error
}

/// A probe ran and did not succeed.
pub open spec fn probe_failed(status: ProbeStatus) -> bool {
    status == ProbeStatus::Timeout || status == ProbeStatus::Error
}

/// How a probe outcome is reported as evidence.
pub open spec fn evidence_status_for(status: ProbeStatus) -> EvidenceStatus {
    match status {
        ProbeStatus::Success => EvidenceStatus::Success,
        ProbeStatus::Timeout => EvidenceStatus::Timeout,
        ProbeStatus::Error => EvidenceStatus::Failure,
        ProbeStatus::Unsupported => EvidenceStatus::Unavailable,
        ProbeStatus::NotRun => EvidenceStatus::NotChecked,
    }
}

/// A detail cut to the longest length kept.
pub open spec fn bounded_text(detail: Option<Seq<char>>) -> Option<Seq<char>> {
    match detail {
        Some(d) => Some(char_prefix(d, MAX_DETAIL_CHARS as nat)),
        None => None,
    }
}

/// The evidence for a probe: time and duration only when the probe ran; the
/// detail is the error message when there is one, else the probe's own
/// result, cut to the longest length kept.
pub open spec fn probe_evidence(
    source: EvidenceSource,
    status: ProbeStatus,
    duration_ms: u64,
    error_message: Option<Seq<char>>,
    result_detail: Option<Seq<char>>,
    at: Seq<char>,
) -> EvidenceView {
    EvidenceView {
        source,
        status: evidence_status_for(status),
        checked_at: if probe_ran(status) {
            Some(at)
        } else {
            None
        },
        duration_ms: if probe_ran(status) {
            Some(duration_ms)
        } else {
            None
        },
        detail: bounded_text(
            match error_message {
                Some(m) => Some(m),
                None => result_detail,
            },
        ),
    }
}

/// The message of an optional error.
pub open spec fn error_message(e: Option<ProbeError>) -> Option<Seq<char>> {
    match e {
        Some(e) => Some(e.message@),
        None => None,
    }
}

/// Which DNS source a host name stands for.
pub open spec fn dns_source_for(hostname: Seq<char>) -> Option<EvidenceSource> {
    if hostname == MICROSOFT_HOSTNAME@ {
        Some(EvidenceSource::DnsMicrosoft)
    } else if hostname == GOOGLE_HOSTNAME@ {
        Some(EvidenceSource::DnsGoogle)
    } else {
        None
    }
}

/// Which HTTP source a URL stands for.
pub open spec fn http_source_for(url: Seq<char>) -> Option<EvidenceSource> {
    if url == MICROSOFT_URL@ {
        Some(EvidenceSource::HttpMicrosoft)
    } else if url == GOOGLE_URL@ {
        Some(EvidenceSource::HttpGoogle)
    } else {
        None
    }
}

/// The resolved addresses, comma separated, when there are any.
pub open spec fn dns_result_detail(check: DnsCheck) -> Option<Seq<char>> {
    if check.addresses@.len() > 0 {
        Some(joined_text(texts(check.addresses@), ", "@))
    } else {
        None
    }
}

/// The HTTP status code, when there is one.
pub open spec fn http_result_detail(check: HttpCheck) -> Option<Seq<char>> {
    match check.status_code {
        Some(code) => Some("HTTP "@ + decimal_text(code as nat)),
        None => None,
    }
}

/// Evidence for the DNS checks of known host names, in check order.
pub open spec fn dns_evidence(checks: Seq<DnsCheck>, at: Seq<char>) -> Seq<EvidenceView>
    decreases checks.len(),
{
    if checks.len() == 0 {
        Seq::empty()
    } else {
        let rest = dns_evidence(checks.drop_last(), at);
        let c = checks.last();
        match dns_source_for(c.hostname@) {
            Some(source) => rest.push(
                probe_evidence(
                    source,
                    c.status,
                    c.duration_ms,
                    error_message(c.error),
                    dns_result_detail(c),
                    at,
                ),
            ),
            None => rest,
        }
    }
}

/// Evidence for the HTTP checks of known endpoints, in check order.
pub open spec fn http_evidence(checks: Seq<HttpCheck>, at: Seq<char>) -> Seq<EvidenceView>
    decreases checks.len(),
{
    if checks.len() == 0 {
        Seq::empty()
    } else {
        let rest = http_evidence(checks.drop_last(), at);
        let c = checks.last();
        match http_source_for(c.url@) {
            Some(source) => rest.push(
                probe_evidence(
                    source,
                    c.status,
                    c.duration_ms,
                    error_message(c.error),
                    http_result_detail(c),
                    at,
                ),
            ),
            None => rest,
        }
    }
}

/// All evidence of a snapshot: the three topology facts, the gateway, then
/// DNS and HTTP in check order.
pub open spec fn snapshot_evidence(s: NetworkProbeSnapshot) -> Seq<EvidenceView> {
    let at = s.collected_at@;
    let inventory_failed = s.errors@.len() > 0;
    seq![
        topology_evidence(EvidenceSource::Ethernet, active_ethernet(s.adapters@), inventory_failed, at),
        topology_evidence(EvidenceSource::Ipv4, active_ipv4(s.adapters@), inventory_failed, at),
        topology_evidence(EvidenceSource::DefaultRoute, wired_default_route(s.selected_route), inventory_failed, at),
        probe_evidence(
            EvidenceSource::Gateway,
            s.gateway_check.status,
            s.gateway_check.duration_ms,
            error_message(s.gateway_check.error),
            opt_text(s.gateway_check.reply_address),
            at,
        ),
    ] + dns_evidence(s.dns_checks@, at) + http_evidence(s.http_checks@, at)
}

/// Sources whose evidence carries a check time, in evidence order.
pub open spec fn checked_sources_of(ev: Seq<EvidenceView>) -> Seq<EvidenceSource>
    decreases ev.len(),
{
    if ev.len() == 0 {
        Seq::empty()
    } else if ev.last().checked_at is Some {
        checked_sources_of(ev.drop_last()).push(ev.last().source)
    } else {
        checked_sources_of(ev.drop_last())
    }
}

/// Evidence that shows a failure or a timeout.
pub open spec fn shows_failure(e: EvidenceView) -> bool {
    e.status == EvidenceStatus::Failure || e.status == EvidenceStatus::Timeout
}

/// Sources whose evidence shows a failure or a timeout, in evidence order.
pub open spec fn failed_sources_of(ev: Seq<EvidenceView>) -> Seq<EvidenceSource>
    decreases ev.len(),
{
    if ev.len() == 0 {
        Seq::empty()
    } else if shows_failure(ev.last()) {
        failed_sources_of(ev.drop_last()).push(ev.last().source)
    } else {
        failed_sources_of(ev.drop_last())
    }
}

/// Status of the first DNS check for `hostname`.
pub open spec fn first_dns_status(checks: Seq<DnsCheck>, hostname: Seq<char>) -> Option<ProbeStatus>
    decreases checks.len(),
{
    if checks.len() == 0 {
        None
    } else if checks[0].hostname@ == hostname {
        Some(checks[0].status)
    } else {
        first_dns_status(checks.drop_first(), hostname)
    }
}

/// Status of the first HTTP check for `url`.
pub open spec fn first_http_status(checks: Seq<HttpCheck>, url: Seq<char>) -> Option<ProbeStatus>
    decreases checks.len(),
{
    if checks.len() == 0 {
        None
    } else if checks[0].url@ == url {
        Some(checks[0].status)
    } else {
        first_http_status(checks.drop_first(), url)
    }
}

pub open spec fn both_failed(a: Option<ProbeStatus>, b: Option<ProbeStatus>) -> bool {
    (a matches Some(x) && probe_failed(x)) && (b matches Some(y) && probe_failed(y))
}

pub open spec fn both_succeeded(a: Option<ProbeStatus>, b: Option<ProbeStatus>) -> bool {
    a == Some(ProbeStatus::Success) && b == Some(ProbeStatus::Success)
}

pub open spec fn either_failed(a: Option<ProbeStatus>, b: Option<ProbeStatus>) -> bool {
    (a matches Some(x) && probe_failed(x)) || (b matches Some(y) && probe_failed(y))
}

pub open spec fn either_succeeded(a: Option<ProbeStatus>, b: Option<ProbeStatus>) -> bool {
    a == Some(ProbeStatus::Success) || b == Some(ProbeStatus::Success)
}

/// A topology source (adapter, address or route).
pub open spec fn is_topology_source(s: EvidenceSource) -> bool {
    s == EvidenceSource::Ethernet || s == EvidenceSource::Ipv4 || s == EvidenceSource::DefaultRoute
}

/// Some probe (not a topology fact) could not be performed on this platform.
pub open spec fn has_unavailable_probe(ev: Seq<EvidenceView>) -> bool {
    exists|i: int|
        0 <= i < ev.len() && #[trigger] ev[i].status == EvidenceStatus::Unavailable
            && !is_topology_source(ev[i].source)
}

/// The area that the snapshot points at, or `None` when everything that
/// was checked is normal. Earlier rules win.
pub open spec fn snapshot_area(s: NetworkProbeSnapshot) -> Option<DiagnosticArea> {
    let inventory_failed = s.errors@.len() > 0;
    let topology_missing = !(active_ethernet(s.adapters@) && active_ipv4(s.adapters@)
        && wired_default_route(s.selected_route));
    let gateway = s.gateway_check.status;
    let ms_dns = first_dns_status(s.dns_checks@, MICROSOFT_HOSTNAME@);
    let g_dns = first_dns_status(s.dns_checks@, GOOGLE_HOSTNAME@);
    let ms_http = first_http_status(s.http_checks@, MICROSOFT_URL@);
    let g_http = first_http_status(s.http_checks@, GOOGLE_URL@);
    if inventory_failed && topology_missing {
        Some(DiagnosticArea::Unknown)
    } else if topology_missing {
        Some(DiagnosticArea::LocalConnection)
    } else if probe_failed(gateway) {
        Some(DiagnosticArea::GatewayOrLocal)
    } else if both_failed(ms_dns, g_dns) && either_succeeded(ms_http, g_http) {
        Some(DiagnosticArea::Unknown)
    } else if gateway == ProbeStatus::Success && both_failed(ms_dns, g_dns) {
        Some(DiagnosticArea::Dns)
    } else if gateway == ProbeStatus::Success && both_succeeded(ms_dns, g_dns) && both_failed(
        ms_http,
        g_http,
    ) {
        Some(DiagnosticArea::External)
    } else if either_failed(ms_dns, g_dns) || either_failed(ms_http, g_http)
        || has_unavailable_probe(snapshot_evidence(s)) {
        Some(DiagnosticArea::Unknown)
    } else {
        None
    }
}


// ---------------------------------------------------------------------------
// Assessment
// ---------------------------------------------------------------------------

/// The verdict on one snapshot: the area it points at (none when normal),
/// the evidence, and which sources failed or were actually checked.
#[derive(Clone, Debug)]
pub struct DiagnosticAssessment {
    pub area: Option<DiagnosticArea>,
    pub evidence: Vec<DiagnosticEvidence>,
    pub failed_sources: Vec<EvidenceSource>,
    pub checked_sources: Vec<EvidenceSource>,
}

/// The abstract content of an assessment.
#[verifier::ext_equal]
pub struct AssessmentView {
    pub area: Option<DiagnosticArea>,
    pub evidence: Seq<EvidenceView>,
    pub failed_sources: Seq<EvidenceSource>,
    pub checked_sources: Seq<EvidenceSource>,
}

impl View for DiagnosticAssessment {
    type V = AssessmentView;

    open spec fn view(&self) -> AssessmentView {
        AssessmentView {
            area: self.area,
            evidence: evidence_views(self.evidence@),
            failed_sources: self.failed_sources@,
            checked_sources: self.checked_sources@,
        }
    }
}

/// What assessing a snapshot yields.
pub open spec fn assessment_of(s: NetworkProbeSnapshot) -> AssessmentView {
    AssessmentView {
        area: snapshot_area(s),
        evidence: snapshot_evidence(s),
        failed_sources: failed_sources_of(snapshot_evidence(s)),
        checked_sources: checked_sources_of(snapshot_evidence(s)),
    }
}

/// The sources whose checks prove that an area has recovered.
pub open spec fn recovery_sources(area: DiagnosticArea) -> Seq<EvidenceSource> {
    match area {
        DiagnosticArea::LocalConnection => seq![
            EvidenceSource::Ethernet,
            EvidenceSource::Ipv4,
            EvidenceSource::DefaultRoute,
        ],
        DiagnosticArea::GatewayOrLocal => seq![EvidenceSource::Gateway],
        DiagnosticArea::Dns => seq![EvidenceSource::DnsMicrosoft, EvidenceSource::DnsGoogle],
        DiagnosticArea::External => seq![EvidenceSource::HttpMicrosoft, EvidenceSource::HttpGoogle],
        DiagnosticArea::Unknown => Seq::empty(),
    }
}

/// A normal assessment that actually checked every source of the area; an
/// unknown area can never be shown to have recovered.
pub open spec fn shows_recovery(
    area_found: Option<DiagnosticArea>,
    checked: Seq<EvidenceSource>,
    area: DiagnosticArea,
) -> bool {
    &&& area != DiagnosticArea::Unknown
    &&& area_found is None
    &&& forall|i: int|
        0 <= i < recovery_sources(area).len() ==> checked.contains(#[trigger] recovery_sources(area)[i])
}

fn contains_source(sources: &Vec<EvidenceSource>, source: EvidenceSource) -> (r: bool)
    ensures
        r == sources@.contains(source),
{
    let mut i: usize = 0;
    while i < sources.len()
        invariant
            i <= sources@.len(),
            forall|j: int| 0 <= j < i ==> sources@[j] != source,
        decreases sources@.len() - i,
    {
        if sources[i] == source {
            assert(sources@[i as int] == source);
            return true;
        }
        i += 1;
    }
    false
}

impl DiagnosticAssessment {
    pub fn is_normal(&self) -> (r: bool)
        ensures
            r == self.area is None,
    {
        self.area.is_none()
    }

    pub fn verifies_recovery_for(&self, area: &DiagnosticArea) -> (r: bool)
        ensures
            r == shows_recovery(self.area, self.checked_sources@, *area),
    {
        let needed: Vec<EvidenceSource> = match area {
            DiagnosticArea::LocalConnection => vec![
                EvidenceSource::Ethernet,
                EvidenceSource::Ipv4,
                EvidenceSource::DefaultRoute,
            ],
            DiagnosticArea::GatewayOrLocal => vec![EvidenceSource::Gateway],
            DiagnosticArea::Dns => vec![EvidenceSource::DnsMicrosoft, EvidenceSource::DnsGoogle],
            DiagnosticArea::External => vec![
                EvidenceSource::HttpMicrosoft,
                EvidenceSource::HttpGoogle,
            ],
            DiagnosticArea::Unknown => {
                return false;
            },
        };
        assert(needed@ =~= recovery_sources(*area));
        if !self.is_normal() {
            return false;
        }
        let mut i: usize = 0;
        while i < needed.len()
            invariant
                i <= needed@.len(),
                needed@ == recovery_sources(*area),
                forall|j: int| 0 <= j < i ==> self.checked_sources@.contains(#[trigger] needed@[j]),
            decreases needed@.len() - i,
        {
            if !contains_source(&self.checked_sources, needed[i]) {
                return false;
            }
            i += 1;
        }
        true
    }
}

proof fn lemma_views_push(v: Seq<DiagnosticEvidence>, e: DiagnosticEvidence)
    ensures
        evidence_views(v.push(e)) == evidence_views(v).push(e@),
{
    assert(evidence_views(v.push(e)) =~= evidence_views(v).push(e@));
}

proof fn lemma_sources_push(ev: Seq<EvidenceView>, e: EvidenceView)
    ensures
        checked_sources_of(ev.push(e)) == if e.checked_at is Some {
            checked_sources_of(ev).push(e.source)
        } else {
            checked_sources_of(ev)
        },
        failed_sources_of(ev.push(e)) == if shows_failure(e) {
            failed_sources_of(ev).push(e.source)
        } else {
            failed_sources_of(ev)
        },
{
    assert(ev.push(e).drop_last() =~= ev);
}

/// The sources lists agree with the evidence collected so far.
pub open spec fn sources_agree(
    evidence: Seq<DiagnosticEvidence>,
    failed: Seq<EvidenceSource>,
    checked: Seq<EvidenceSource>,
) -> bool {
    &&& checked == checked_sources_of(evidence_views(evidence))
    &&& failed == failed_sources_of(evidence_views(evidence))
}

fn push_evidence(
    evidence: &mut Vec<DiagnosticEvidence>,
    failed_sources: &mut Vec<EvidenceSource>,
    checked_sources: &mut Vec<EvidenceSource>,
    item: DiagnosticEvidence,
)
    requires
        sources_agree(old(evidence)@, old(failed_sources)@, old(checked_sources)@),
    ensures
        evidence_views(final(evidence)@) == evidence_views(old(evidence)@).push(item@),
        sources_agree(final(evidence)@, final(failed_sources)@, final(checked_sources)@),
{
    proof {
        lemma_views_push(evidence@, item);
        lemma_sources_push(evidence_views(evidence@), item@);
    }
    if item.checked_at.is_some() {
        checked_sources.push(item.source);
    }
    if item.status == EvidenceStatus::Failure || item.status == EvidenceStatus::Timeout {
        failed_sources.push(item.source);
    }
    evidence.push(item);
}

fn topology_item(
    source: EvidenceSource,
    present: bool,
    inventory_failed: bool,
    collected_at: &str,
) -> (r: DiagnosticEvidence)
    ensures
        r@ == topology_evidence(source, present, inventory_failed, collected_at@),
{
    let confirmed = present || !inventory_failed;
    DiagnosticEvidence {
        source,
        status: if present {
            EvidenceStatus::Success
        } else if inventory_failed {
            EvidenceStatus::Unavailable
        } else {
            EvidenceStatus::Failure
        },
        checked_at: if confirmed {
            Some(owned(collected_at))
        } else {
            None
        },
        duration_ms: None,
        detail: None,
    }
}

pub open spec fn opt_str_text(o: Option<&str>) -> Option<Seq<char>> {
    match o {
        Some(s) => Some(s@),
        None => None,
    }
}

fn bounded_detail(detail: Option<&str>) -> (r: Option<String>)
    ensures
        opt_text(r) == bounded_text(opt_str_text(detail)),
{
    match detail {
        Some(d) => Some(prefix_chars(d, MAX_DETAIL_CHARS)),
        None => None,
    }
}

fn probe_item(
    source: EvidenceSource,
    status: ProbeStatus,
    duration_ms: u64,
    error: &Option<ProbeError>,
    result_detail: Option<&str>,
    collected_at: &str,
) -> (r: DiagnosticEvidence)
    ensures
        r@ == probe_evidence(
            source,
            status,
            duration_ms,
            error_message(*error),
            opt_str_text(result_detail),
            collected_at@,
        ),
{
    let ran = match status {
        ProbeStatus::Success | ProbeStatus::Timeout | ProbeStatus::Error => true,
        _ => false,
    };
    let evidence_status = match status {
        ProbeStatus::Success => EvidenceStatus::Success,
        ProbeStatus::Timeout => EvidenceStatus::Timeout,
        ProbeStatus::Error => EvidenceStatus::Failure,
        ProbeStatus::Unsupported => EvidenceStatus::Unavailable,
        ProbeStatus::NotRun => EvidenceStatus::NotChecked,
    };
    let detail_source: Option<&str> = match error {
        Some(e) => Some(e.message.as_str()),
        None => result_detail,
    };
    DiagnosticEvidence {
        source,
        status: evidence_status,
        checked_at: if ran {
            Some(owned(collected_at))
        } else {
            None
        },
        duration_ms: if ran {
            Some(duration_ms)
        } else {
            None
        },
        detail: bounded_detail(detail_source),
    }
}

fn any_wired_up(adapters: &Vec<AdapterSnapshot>, need_address: bool) -> (r: bool)
    ensures
        r == if need_address {
            active_ipv4(adapters@)
        } else {
            active_ethernet(adapters@)
        },
{
    let mut i: usize = 0;
    while i < adapters.len()
        invariant
            i <= adapters@.len(),
            forall|j: int|
                0 <= j < i ==> !(#[trigger] adapters@[j].if_type == ETHERNET_IF_TYPE
                    && adapters@[j].operational_status@ == "up"@ && (!need_address
                    || adapters@[j].ipv4_addresses@.len() > 0)),
        decreases adapters@.len() - i,
    {
        let adapter = &adapters[i];
        if adapter.if_type == ETHERNET_IF_TYPE && str_eq(adapter.operational_status.as_str(), "up")
            && (!need_address || adapter.ipv4_addresses.len() > 0) {
            assert(adapters@[i as int].if_type == ETHERNET_IF_TYPE);
            return true;
        }
        i += 1;
    }
    false
}

fn route_is_wired(route: &Option<RouteSnapshot>) -> (r: bool)
    ensures
        r == wired_default_route(*route),
{
    match route {
        Some(r) => r.adapter_is_ethernet && r.adapter_is_up && r.gateway.as_str().unicode_len() > 0,
        None => false,
    }
}

fn dns_source(check: &DnsCheck) -> (r: Option<EvidenceSource>)
    ensures
        r == dns_source_for(check.hostname@),
{
    if str_eq(check.hostname.as_str(), MICROSOFT_HOSTNAME) {
        Some(EvidenceSource::DnsMicrosoft)
    } else if str_eq(check.hostname.as_str(), GOOGLE_HOSTNAME) {
        Some(EvidenceSource::DnsGoogle)
    } else {
        None
    }
}

fn http_source(check: &HttpCheck) -> (r: Option<EvidenceSource>)
    ensures
        r == http_source_for(check.url@),
{
    if str_eq(check.url.as_str(), MICROSOFT_URL) {
        Some(EvidenceSource::HttpMicrosoft)
    } else if str_eq(check.url.as_str(), GOOGLE_URL) {
        Some(EvidenceSource::HttpGoogle)
    } else {
        None
    }
}

fn status_for_dns(checks: &Vec<DnsCheck>, hostname: &str) -> (r: Option<ProbeStatus>)
    ensures
        r == first_dns_status(checks@, hostname@),
{
    let mut i: usize = 0;
    assert(checks@.skip(0) =~= checks@);
    while i < checks.len()
        invariant
            i <= checks@.len(),
            first_dns_status(checks@, hostname@) == first_dns_status(checks@.skip(i as int), hostname@),
        decreases checks@.len() - i,
    {
        assert(checks@.skip(i as int).drop_first() =~= checks@.skip(i + 1));
        if str_eq(checks[i].hostname.as_str(), hostname) {
            return Some(checks[i].status);
        }
        i += 1;
    }
    None
}

fn status_for_http(checks: &Vec<HttpCheck>, url: &str) -> (r: Option<ProbeStatus>)
    ensures
        r == first_http_status(checks@, url@),
{
    let mut i: usize = 0;
    assert(checks@.skip(0) =~= checks@);
    while i < checks.len()
        invariant
            i <= checks@.len(),
            first_http_status(checks@, url@) == first_http_status(checks@.skip(i as int), url@),
        decreases checks@.len() - i,
    {
        assert(checks@.skip(i as int).drop_first() =~= checks@.skip(i + 1));
        if str_eq(checks[i].url.as_str(), url) {
            return Some(checks[i].status);
        }
        i += 1;
    }
    None
}

fn failed_with_status(status: Option<ProbeStatus>) -> (r: bool)
    ensures
        r == (status matches Some(s) && probe_failed(s)),
{
    match status {
        Some(ProbeStatus::Timeout) | Some(ProbeStatus::Error) => true,
        _ => false,
    }
}

fn any_unavailable_probe(evidence: &Vec<DiagnosticEvidence>) -> (r: bool)
    ensures
        r == has_unavailable_probe(evidence_views(evidence@)),
{
    let ghost ev = evidence_views(evidence@);
    let mut i: usize = 0;
    while i < evidence.len()
        invariant
            i <= evidence@.len(),
            ev == evidence_views(evidence@),
            forall|j: int|
                0 <= j < i ==> !(#[trigger] ev[j].status == EvidenceStatus::Unavailable
                    && !is_topology_source(ev[j].source)),
        decreases evidence@.len() - i,
    {
        let item = &evidence[i];
        assert(ev[i as int] == item@);
        if item.status == EvidenceStatus::Unavailable && !(item.source == EvidenceSource::Ethernet
            || item.source == EvidenceSource::Ipv4 || item.source
            == EvidenceSource::DefaultRoute) {
            return true;
        }
        i += 1;
    }
    false
}

/// Classifies one probe snapshot: builds the evidence, and names the area
/// the failures point at.
pub fn assess(snapshot: NetworkProbeSnapshot) -> (r: DiagnosticAssessment)
    ensures
        r.area == snapshot_area(snapshot),
        evidence_views(r.evidence@) == snapshot_evidence(snapshot),
        r.checked_sources@ == checked_sources_of(snapshot_evidence(snapshot)),
        r.failed_sources@ == failed_sources_of(snapshot_evidence(snapshot)),
        r@ == assessment_of(snapshot),
{
    let mut evidence: Vec<DiagnosticEvidence> = Vec::new();
    let mut failed_sources: Vec<EvidenceSource> = Vec::new();
    let mut checked_sources: Vec<EvidenceSource> = Vec::new();
    let collected_at = snapshot.collected_at.as_str();
    let ghost at = snapshot.collected_at@;

    let active_ethernet = any_wired_up(&snapshot.adapters, false);
    let active_ipv4 = any_wired_up(&snapshot.adapters, true);
    let default_route = route_is_wired(&snapshot.selected_route);
    let inventory_failed = snapshot.errors.len() > 0;

    proof {
        assert(evidence_views(evidence@) =~= Seq::<EvidenceView>::empty());
    }
    push_evidence(
        &mut evidence,
        &mut failed_sources,
        &mut checked_sources,
        topology_item(EvidenceSource::Ethernet, active_ethernet, inventory_failed, collected_at),
    );
    push_evidence(
        &mut evidence,
        &mut failed_sources,
        &mut checked_sources,
        topology_item(EvidenceSource::Ipv4, active_ipv4, inventory_failed, collected_at),
    );
    push_evidence(
        &mut evidence,
        &mut failed_sources,
        &mut checked_sources,
        topology_item(EvidenceSource::DefaultRoute, default_route, inventory_failed, collected_at),
    );
    let gateway_detail: Option<&str> = match &snapshot.gateway_check.reply_address {
        Some(a) => Some(a.as_str()),
        None => None,
    };
    push_evidence(
        &mut evidence,
        &mut failed_sources,
        &mut checked_sources,
        probe_item(
            EvidenceSource::Gateway,
            snapshot.gateway_check.status,
            snapshot.gateway_check.duration_ms,
            &snapshot.gateway_check.error,
            gateway_detail,
            collected_at,
        ),
    );
    let ghost head = evidence_views(evidence@);
    assert(head =~= snapshot_evidence(snapshot).take(4));

    let mut i: usize = 0;
    assert(snapshot.dns_checks@.take(0) =~= Seq::<DnsCheck>::empty());
    assert(head =~= head + dns_evidence(snapshot.dns_checks@.take(0), at));
    while i < snapshot.dns_checks.len()
        invariant
            i <= snapshot.dns_checks@.len(),
            collected_at@ == at,
            sources_agree(evidence@, failed_sources@, checked_sources@),
            evidence_views(evidence@) == head + dns_evidence(snapshot.dns_checks@.take(i as int), at),
        decreases snapshot.dns_checks@.len() - i,
    {
        let check = &snapshot.dns_checks[i];
        assert(snapshot.dns_checks@.take(i + 1).drop_last() =~= snapshot.dns_checks@.take(i as int));
        assert(snapshot.dns_checks@.take(i + 1).last() == *check);
        match dns_source(check) {
            Some(source) => {
                let addresses: Option<String> = if check.addresses.len() > 0 {
                    Some(join_texts(&check.addresses, ", "))
                } else {
                    None
                };
                let detail: Option<&str> = match &addresses {
                    Some(a) => Some(a.as_str()),
                    None => None,
                };
                assert(opt_str_text(detail) == dns_result_detail(*check));
                let item = probe_item(
                    source,
                    check.status,
                    check.duration_ms,
                    &check.error,
                    detail,
                    collected_at,
                );
                push_evidence(&mut evidence, &mut failed_sources, &mut checked_sources, item);
                assert(evidence_views(evidence@) =~= head + dns_evidence(
                    snapshot.dns_checks@.take(i + 1),
                    at,
                ));
            },
            None => {
                assert(evidence_views(evidence@) =~= head + dns_evidence(
                    snapshot.dns_checks@.take(i + 1),
                    at,
                ));
            },
        }
        i += 1;
    }
    assert(snapshot.dns_checks@.take(snapshot.dns_checks@.len() as int) =~= snapshot.dns_checks@);
    let ghost middle = evidence_views(evidence@);

    let mut k: usize = 0;
    assert(snapshot.http_checks@.take(0) =~= Seq::<HttpCheck>::empty());
    assert(middle =~= middle + http_evidence(snapshot.http_checks@.take(0), at));
    while k < snapshot.http_checks.len()
        invariant
            k <= snapshot.http_checks@.len(),
            collected_at@ == at,
            sources_agree(evidence@, failed_sources@, checked_sources@),
            evidence_views(evidence@) == middle + http_evidence(
                snapshot.http_checks@.take(k as int),
                at,
            ),
        decreases snapshot.http_checks@.len() - k,
    {
        let check = &snapshot.http_checks[k];
        assert(snapshot.http_checks@.take(k + 1).drop_last() =~= snapshot.http_checks@.take(
            k as int,
        ));
        assert(snapshot.http_checks@.take(k + 1).last() == *check);
        match http_source(check) {
            Some(source) => {
                let code_text: Option<String> = match check.status_code {
                    Some(code) => Some(with_decimal("HTTP ", code as u64)),
                    None => None,
                };
                let detail: Option<&str> = match &code_text {
                    Some(t) => Some(t.as_str()),
                    None => None,
                };
                assert(opt_str_text(detail) == http_result_detail(*check));
                let item = probe_item(
                    source,
                    check.status,
                    check.duration_ms,
                    &check.error,
                    detail,
                    collected_at,
                );
                push_evidence(&mut evidence, &mut failed_sources, &mut checked_sources, item);
                assert(evidence_views(evidence@) =~= middle + http_evidence(
                    snapshot.http_checks@.take(k + 1),
                    at,
                ));
            },
            None => {
                assert(evidence_views(evidence@) =~= middle + http_evidence(
                    snapshot.http_checks@.take(k + 1),
                    at,
                ));
            },
        }
        k += 1;
    }
    assert(snapshot.http_checks@.take(snapshot.http_checks@.len() as int)
        =~= snapshot.http_checks@);
    assert(evidence_views(evidence@) =~= snapshot_evidence(snapshot));

    let topology_missing = !(active_ethernet && active_ipv4 && default_route);
    let gateway_status = snapshot.gateway_check.status;
    let gateway_failed = gateway_status == ProbeStatus::Timeout || gateway_status
        == ProbeStatus::Error;
    let gateway_success = gateway_status == ProbeStatus::Success;
    let microsoft_dns = status_for_dns(&snapshot.dns_checks, MICROSOFT_HOSTNAME);
    let google_dns = status_for_dns(&snapshot.dns_checks, GOOGLE_HOSTNAME);
    let microsoft_http = status_for_http(&snapshot.http_checks, MICROSOFT_URL);
    let google_http = status_for_http(&snapshot.http_checks, GOOGLE_URL);
    let both_dns_failed = failed_with_status(microsoft_dns) && failed_with_status(google_dns);
    let both_dns_succeeded = microsoft_dns == Some(ProbeStatus::Success) && google_dns == Some(
        ProbeStatus::Success,
    );
    let both_http_failed = failed_with_status(microsoft_http) && failed_with_status(google_http);
    let any_dns_failed = failed_with_status(microsoft_dns) || failed_with_status(google_dns);
    let any_http_failed = failed_with_status(microsoft_http) || failed_with_status(google_http);
    let any_http_succeeded = microsoft_http == Some(ProbeStatus::Success) || google_http == Some(
        ProbeStatus::Success,
    );
    let unavailable_result = any_unavailable_probe(&evidence);

    let area = if inventory_failed && topology_missing {
        Some(DiagnosticArea::Unknown)
    } else if topology_missing {
        Some(DiagnosticArea::LocalConnection)
    } else if gateway_failed {
        Some(DiagnosticArea::GatewayOrLocal)
    } else if both_dns_failed && any_http_succeeded {
        Some(DiagnosticArea::Unknown)
    } else if gateway_success && both_dns_failed {
        Some(DiagnosticArea::Dns)
    } else if gateway_success && both_dns_succeeded && both_http_failed {
        Some(DiagnosticArea::External)
    } else if any_dns_failed || any_http_failed || unavailable_result {
        Some(DiagnosticArea::Unknown)
    } else {
        None
    };

    DiagnosticAssessment { area, evidence, failed_sources, checked_sources }
}

/// Evidence that keeps apart what was checked: a failure or timeout always
/// carries a check time, and an unavailable or unchecked source never does.
pub open spec fn keeps_checks_apart(e: EvidenceView) -> bool {
    &&& shows_failure(e) ==> e.checked_at is Some
    &&& (e.status == EvidenceStatus::Unavailable || e.status == EvidenceStatus::NotChecked)
        ==> e.checked_at is None
}

proof fn dns_evidence_keeps_checks_apart(checks: Seq<DnsCheck>, at: Seq<char>)
    ensures
        forall|i: int|
            0 <= i < dns_evidence(checks, at).len() ==> keeps_checks_apart(
                #[trigger] dns_evidence(checks, at)[i],
            ),
    decreases checks.len(),
{
    if checks.len() > 0 {
        dns_evidence_keeps_checks_apart(checks.drop_last(), at);
        let rest = dns_evidence(checks.drop_last(), at);
        let c = checks.last();
        let all = dns_evidence(checks, at);
        match dns_source_for(c.hostname@) {
            Some(source) => {
                let item = probe_evidence(
                    source,
                    c.status,
                    c.duration_ms,
                    error_message(c.error),
                    dns_result_detail(c),
                    at,
                );
                assert(all == rest.push(item));
                assert(keeps_checks_apart(item));
                assert forall|i: int| 0 <= i < all.len() implies keeps_checks_apart(#[trigger] all[i]) by {
                    if i < rest.len() {
                        assert(all[i] == rest[i]);
                    }
                }
            },
            None => {
                assert(all == rest);
            },
        }
    }
}

proof fn http_evidence_keeps_checks_apart(checks: Seq<HttpCheck>, at: Seq<char>)
    ensures
        forall|i: int|
            0 <= i < http_evidence(checks, at).len() ==> keeps_checks_apart(
                #[trigger] http_evidence(checks, at)[i],
            ),
    decreases checks.len(),
{
    if checks.len() > 0 {
        http_evidence_keeps_checks_apart(checks.drop_last(), at);
        let rest = http_evidence(checks.drop_last(), at);
        let c = checks.last();
        let all = http_evidence(checks, at);
        match http_source_for(c.url@) {
            Some(source) => {
                let item = probe_evidence(
                    source,
                    c.status,
                    c.duration_ms,
                    error_message(c.error),
                    http_result_detail(c),
                    at,
                );
                assert(all == rest.push(item));
                assert(keeps_checks_apart(item));
                assert forall|i: int| 0 <= i < all.len() implies keeps_checks_apart(#[trigger] all[i]) by {
                    if i < rest.len() {
                        assert(all[i] == rest[i]);
                    }
                }
            },
            None => {
                assert(all == rest);
            },
        }
    }
}

proof fn failed_sources_are_checked(ev: Seq<EvidenceView>)
    requires
        forall|i: int| 0 <= i < ev.len() ==> keeps_checks_apart(#[trigger] ev[i]),
    ensures
        forall|x: EvidenceSource|
            failed_sources_of(ev).contains(x) ==> checked_sources_of(ev).contains(x),
    decreases ev.len(),
{
    if ev.len() > 0 {
        let rest = ev.drop_last();
        assert forall|i: int| 0 <= i < rest.len() implies keeps_checks_apart(#[trigger] rest[i]) by {
            assert(rest[i] == ev[i]);
        }
        failed_sources_are_checked(rest);
        assert(keeps_checks_apart(ev[ev.len() - 1]));
        assert forall|x: EvidenceSource|
            failed_sources_of(ev).contains(x) implies checked_sources_of(ev).contains(x) by {
            if failed_sources_of(rest).contains(x) {
                let j = choose|j: int|
                    0 <= j < checked_sources_of(rest).len() && checked_sources_of(rest)[j] == x;
                if ev.last().checked_at is Some {
                    assert(checked_sources_of(ev)[j] == x);
                }
            } else {
                assert(x == ev.last().source);
                let c = checked_sources_of(ev);
                assert(c[c.len() - 1] == x);
            }
        }
    }
}

/// Only a source that was actually checked can have failed: every failed
/// source of an assessment is among its checked sources, and a probe that
/// could not run or was not run carries no check time.
pub proof fn only_checked_sources_fail(s: NetworkProbeSnapshot)
    ensures
        forall|x: EvidenceSource|
            assessment_of(s).failed_sources.contains(x) ==> assessment_of(
                s,
            ).checked_sources.contains(x),
        forall|i: int|
            0 <= i < assessment_of(s).evidence.len() ==> keeps_checks_apart(
                #[trigger] assessment_of(s).evidence[i],
            ),
{
    let at = s.collected_at@;
    dns_evidence_keeps_checks_apart(s.dns_checks@, at);
    http_evidence_keeps_checks_apart(s.http_checks@, at);
    let ev = snapshot_evidence(s);
    let head = seq![
        topology_evidence(
            EvidenceSource::Ethernet,
            active_ethernet(s.adapters@),
            s.errors@.len() > 0,
            at,
        ),
        topology_evidence(EvidenceSource::Ipv4, active_ipv4(s.adapters@), s.errors@.len() > 0, at),
        topology_evidence(
            EvidenceSource::DefaultRoute,
            wired_default_route(s.selected_route),
            s.errors@.len() > 0,
            at,
        ),
        probe_evidence(
            EvidenceSource::Gateway,
            s.gateway_check.status,
            s.gateway_check.duration_ms,
            error_message(s.gateway_check.error),
            opt_text(s.gateway_check.reply_address),
            at,
        ),
    ];
    let dns = dns_evidence(s.dns_checks@, at);
    let http = http_evidence(s.http_checks@, at);
    assert(ev == head + dns + http);
    assert forall|i: int| 0 <= i < ev.len() implies keeps_checks_apart(#[trigger] ev[i]) by {
        if i < 4 {
            assert(ev[i] == head[i]);
        } else if i < 4 + dns.len() {
            assert(ev[i] == dns[i - 4]);
        } else {
            assert(ev[i] == http[i - 4 - dns.len()]);
        }
    }
    failed_sources_are_checked(ev);
}

proof fn failed_sources_exactly(ev: Seq<EvidenceView>)
    ensures
        forall|x: EvidenceSource|
            failed_sources_of(ev).contains(x) <==> exists|i: int|
                0 <= i < ev.len() && #[trigger] ev[i].source == x && shows_failure(ev[i]),
    decreases ev.len(),
{
    if ev.len() > 0 {
        let rest = ev.drop_last();
        failed_sources_exactly(rest);
        let f0 = failed_sources_of(rest);
        let f = failed_sources_of(ev);
        let last = ev[ev.len() - 1];
        if shows_failure(last) {
            assert(f == f0.push(last.source));
        } else {
            assert(f == f0);
        }
        assert forall|x: EvidenceSource| f.contains(x) implies exists|i: int|
            0 <= i < ev.len() && #[trigger] ev[i].source == x && shows_failure(ev[i]) by {
            let k = choose|k: int| 0 <= k < f.len() && f[k] == x;
            if k < f0.len() {
                assert(f[k] == f0[k]);
                assert(f0.contains(x));
                let i = choose|i: int|
                    0 <= i < rest.len() && #[trigger] rest[i].source == x && shows_failure(rest[i]);
                assert(ev[i] == rest[i]);
            } else {
                assert(ev[ev.len() - 1].source == x);
            }
        }
        assert forall|x: EvidenceSource|
            (exists|i: int| 0 <= i < ev.len() && #[trigger] ev[i].source == x && shows_failure(ev[i]))
            implies f.contains(x) by {
            let i = choose|i: int| 0 <= i < ev.len() && #[trigger] ev[i].source == x && shows_failure(ev[i]);
            if i < ev.len() - 1 {
                assert(rest[i] == ev[i]);
                assert(rest[i].source == x && shows_failure(rest[i]));
                assert(f0.contains(x));
                let k = choose|k: int| 0 <= k < f0.len() && f0[k] == x;
                assert(f[k] == x);
            } else {
                assert(f[f.len() - 1] == x);
            }
        }
    }
}

proof fn dns_evidence_sources(checks: Seq<DnsCheck>, at: Seq<char>)
    ensures
        forall|i: int|
            0 <= i < dns_evidence(checks, at).len() ==> (#[trigger] dns_evidence(checks, at)[i]).source
                == EvidenceSource::DnsMicrosoft || dns_evidence(checks, at)[i].source
                == EvidenceSource::DnsGoogle,
    decreases checks.len(),
{
    if checks.len() > 0 {
        dns_evidence_sources(checks.drop_last(), at);
        let rest = dns_evidence(checks.drop_last(), at);
        let all = dns_evidence(checks, at);
        assert forall|i: int| 0 <= i < all.len() implies (#[trigger] all[i]).source
            == EvidenceSource::DnsMicrosoft || all[i].source == EvidenceSource::DnsGoogle by {
            if i < rest.len() {
                assert(all[i] == rest[i]);
            }
        }
    }
}

proof fn http_evidence_sources(checks: Seq<HttpCheck>, at: Seq<char>)
    ensures
        forall|i: int|
            0 <= i < http_evidence(checks, at).len() ==> (#[trigger] http_evidence(
                checks,
                at,
            )[i]).source == EvidenceSource::HttpMicrosoft || http_evidence(checks, at)[i].source
                == EvidenceSource::HttpGoogle,
    decreases checks.len(),
{
    if checks.len() > 0 {
        http_evidence_sources(checks.drop_last(), at);
        let rest = http_evidence(checks.drop_last(), at);
        let all = http_evidence(checks, at);
        assert forall|i: int| 0 <= i < all.len() implies (#[trigger] all[i]).source
            == EvidenceSource::HttpMicrosoft || all[i].source == EvidenceSource::HttpGoogle by {
            if i < rest.len() {
                assert(all[i] == rest[i]);
            }
        }
    }
}

/// A fault in the local topology or at the gateway is never reported as
/// normal: when an adapter, an address, the default route or the gateway is
/// among the failed sources, the assessment names an area. A gateway probe
/// that timed out or failed puts the gateway among the failed sources and,
/// when an up wired adapter holds an address and the default route leaves
/// through it, puts the fault at the gateway or the local network. A first
/// DNS or HTTP check of a known target that timed out or failed is never
/// normal either.
pub proof fn local_failures_are_never_normal(s: NetworkProbeSnapshot)
    ensures
        forall|x: EvidenceSource|
            (x == EvidenceSource::Ethernet || x == EvidenceSource::Ipv4 || x
                == EvidenceSource::DefaultRoute || x == EvidenceSource::Gateway)
                && #[trigger] assessment_of(s).failed_sources.contains(x) ==> assessment_of(
                s,
            ).area is Some,
        s.gateway_check.status == ProbeStatus::Timeout || s.gateway_check.status
            == ProbeStatus::Error ==> assessment_of(s).failed_sources.contains(
            EvidenceSource::Gateway,
        ),
        (s.gateway_check.status == ProbeStatus::Timeout || s.gateway_check.status
            == ProbeStatus::Error) && active_ethernet(s.adapters@) && active_ipv4(s.adapters@)
            && wired_default_route(s.selected_route) ==> assessment_of(s).area == Some(
            DiagnosticArea::GatewayOrLocal,
        ),
        first_dns_status(s.dns_checks@, MICROSOFT_HOSTNAME@) == Some(ProbeStatus::Timeout)
            || first_dns_status(s.dns_checks@, MICROSOFT_HOSTNAME@) == Some(ProbeStatus::Error)
            || first_dns_status(s.dns_checks@, GOOGLE_HOSTNAME@) == Some(ProbeStatus::Timeout)
            || first_dns_status(s.dns_checks@, GOOGLE_HOSTNAME@) == Some(ProbeStatus::Error)
            || first_http_status(s.http_checks@, MICROSOFT_URL@) == Some(ProbeStatus::Timeout)
            || first_http_status(s.http_checks@, MICROSOFT_URL@) == Some(ProbeStatus::Error)
            || first_http_status(s.http_checks@, GOOGLE_URL@) == Some(ProbeStatus::Timeout)
            || first_http_status(s.http_checks@, GOOGLE_URL@) == Some(ProbeStatus::Error)
            ==> assessment_of(s).area is Some,
{
    let at = s.collected_at@;
    let ev = snapshot_evidence(s);
    let inventory_failed = s.errors@.len() > 0;
    let head = seq![
        topology_evidence(EvidenceSource::Ethernet, active_ethernet(s.adapters@), inventory_failed, at),
        topology_evidence(EvidenceSource::Ipv4, active_ipv4(s.adapters@), inventory_failed, at),
        topology_evidence(
            EvidenceSource::DefaultRoute,
            wired_default_route(s.selected_route),
            inventory_failed,
            at,
        ),
        probe_evidence(
            EvidenceSource::Gateway,
            s.gateway_check.status,
            s.gateway_check.duration_ms,
            error_message(s.gateway_check.error),
            opt_text(s.gateway_check.reply_address),
            at,
        ),
    ];
    let dns = dns_evidence(s.dns_checks@, at);
    let http = http_evidence(s.http_checks@, at);
    assert(ev == head + dns + http);
    failed_sources_exactly(ev);
    dns_evidence_sources(s.dns_checks@, at);
    http_evidence_sources(s.http_checks@, at);
    assert forall|x: EvidenceSource|
        (x == EvidenceSource::Ethernet || x == EvidenceSource::Ipv4 || x
            == EvidenceSource::DefaultRoute || x == EvidenceSource::Gateway)
            && #[trigger] assessment_of(s).failed_sources.contains(x) implies assessment_of(
            s,
        ).area is Some by {
        let i = choose|i: int| 0 <= i < ev.len() && #[trigger] ev[i].source == x && shows_failure(ev[i]);
        if i >= 4 + dns.len() {
            assert(ev[i] == http[i - 4 - dns.len()]);
        } else if i >= 4 {
            assert(ev[i] == dns[i - 4]);
        } else {
            assert(ev[i] == head[i]);
        }
    }
    if s.gateway_check.status == ProbeStatus::Timeout || s.gateway_check.status
        == ProbeStatus::Error {
        assert(ev[3] == head[3]);
        assert(ev[3].source == EvidenceSource::Gateway && shows_failure(ev[3]));
    }
}

/// Where the assessment puts a fault, by what failed: a missing wired
/// adapter, address or route is the local connection (unknown when the
/// inventory itself could not be read); with the topology complete and the
/// gateway answering, both DNS names failing is DNS unless an HTTP endpoint
/// still answered, and both DNS names resolving while both HTTP endpoints
/// fail is the external line. A normal assessment has a complete topology,
/// a gateway that did not fail, and no failed first check of a DNS name or
/// HTTP endpoint.
pub proof fn fault_areas_follow_the_failures(s: NetworkProbeSnapshot)
    ensures
        !(active_ethernet(s.adapters@) && active_ipv4(s.adapters@) && wired_default_route(
            s.selected_route,
        )) ==> assessment_of(s).area == Some(
            if s.errors@.len() > 0 {
                DiagnosticArea::Unknown
            } else {
                DiagnosticArea::LocalConnection
            },
        ),
        active_ethernet(s.adapters@) && active_ipv4(s.adapters@) && wired_default_route(
            s.selected_route,
        ) && s.gateway_check.status == ProbeStatus::Success && (first_dns_status(
            s.dns_checks@,
            MICROSOFT_HOSTNAME@,
        ) == Some(ProbeStatus::Timeout) || first_dns_status(s.dns_checks@, MICROSOFT_HOSTNAME@)
            == Some(ProbeStatus::Error)) && (first_dns_status(s.dns_checks@, GOOGLE_HOSTNAME@)
            == Some(ProbeStatus::Timeout) || first_dns_status(s.dns_checks@, GOOGLE_HOSTNAME@)
            == Some(ProbeStatus::Error)) ==> assessment_of(s).area == Some(
            if first_http_status(s.http_checks@, MICROSOFT_URL@) == Some(ProbeStatus::Success)
                || first_http_status(s.http_checks@, GOOGLE_URL@) == Some(ProbeStatus::Success) {
                DiagnosticArea::Unknown
            } else {
                DiagnosticArea::Dns
            },
        ),
        active_ethernet(s.adapters@) && active_ipv4(s.adapters@) && wired_default_route(
            s.selected_route,
        ) && s.gateway_check.status == ProbeStatus::Success && first_dns_status(
            s.dns_checks@,
            MICROSOFT_HOSTNAME@,
        ) == Some(ProbeStatus::Success) && first_dns_status(s.dns_checks@, GOOGLE_HOSTNAME@)
            == Some(ProbeStatus::Success) && (first_http_status(s.http_checks@, MICROSOFT_URL@)
            == Some(ProbeStatus::Timeout) || first_http_status(s.http_checks@, MICROSOFT_URL@)
            == Some(ProbeStatus::Error)) && (first_http_status(s.http_checks@, GOOGLE_URL@)
            == Some(ProbeStatus::Timeout) || first_http_status(s.http_checks@, GOOGLE_URL@)
            == Some(ProbeStatus::Error)) ==> assessment_of(s).area == Some(
            DiagnosticArea::External,
        ),
        assessment_of(s).area is None ==> {
            &&& active_ethernet(s.adapters@) && active_ipv4(s.adapters@) && wired_default_route(
                s.selected_route,
            )
            &&& s.gateway_check.status != ProbeStatus::Timeout && s.gateway_check.status
                != ProbeStatus::Error
        },
{
}

} // verus!
