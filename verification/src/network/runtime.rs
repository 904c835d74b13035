use vstd::prelude::*;
use crate::text::owned;
use super::collector::{GOOGLE_URL, MICROSOFT_URL};
use super::domain::{
    DiagnosticArea, DiagnosticLifecycle, NetworkDiagnosticStatus,
    NetworkProbeSnapshot, ProbeError, ProbeErrorView, RuntimeAvailability, StatusView,
};
use super::observation::{assess, assessment_of};
use super::service::{lock_failed_message, unsupported_snapshot, NetworkProbeCoordinator};
use super::state_machine::{step, NetworkDiagnosticStateMachine};

verus! {

/// Time between baseline probes, in milliseconds.
pub const BASELINE_INTERVAL_MS: u64 = 10_000;

/// Time between automatic checks of an external endpoint, in milliseconds.
pub const EXTERNAL_INTERVAL_MS: u64 = 20_000;

/// Shortest time between two focused refinements, in nanoseconds.
pub const FOCUSED_COOLDOWN_NS: u64 = 30_000_000_000;

/// Largest baseline count whose schedule time can still be computed.
pub const MAX_BASELINE_COUNT: u64 = 1_844_674_407_370_955_161;

/// A probe that the runtime asks the coordinator for.
#[derive(Clone, Debug, PartialEq, Eq)]
pub enum ProbeRequest {
    /// The full probe at startup.
    Full,
    /// A light probe: inventory and gateway, plus one external endpoint when
    /// one is due.
    Baseline(Option<&'static str>),
    /// A full probe that refines a suspicion.
    Focused,
}

/// How a wait between probes ended.
#[derive(Clone, Copy, Debug, PartialEq, Eq, Structural)]
pub enum WaitOutcome {
    Elapsed,
    Stopped,
}

/// A request runs the DNS and HTTP checks in full.
pub open spec fn is_full_request(r: ProbeRequest) -> bool {
    r is Full || r is Focused
}

pub fn is_full_probe(request: &ProbeRequest) -> (r: bool)
    ensures
        r == is_full_request(*request),
{
    match request {
        ProbeRequest::Full | ProbeRequest::Focused => true,
        ProbeRequest::Baseline(_) => false,
    }
}

/// The external endpoint with the given turn.
pub open spec fn external_target(index: int) -> Seq<char> {
    if index == 0 {
        MICROSOFT_URL@
    } else {
        GOOGLE_URL@
    }
}

/// The external endpoint with the given turn, as the requests carry it.
pub open spec fn external_endpoint(index: int) -> &'static str {
    if index == 0 {
        MICROSOFT_URL
    } else {
        GOOGLE_URL
    }
}

/// An external endpoint is due on every baseline whose time is a multiple
/// of the external interval, that is on every second baseline.
pub open spec fn external_due(baseline_count: nat) -> bool {
    (baseline_count * (BASELINE_INTERVAL_MS as nat)) % (EXTERNAL_INTERVAL_MS as nat) == 0
}

/// An external endpoint is due on exactly the even-numbered baselines.
pub proof fn external_due_on_even_baselines(baseline_count: nat)
    ensures
        external_due(baseline_count) <==> baseline_count % 2 == 0,
{
    assert((baseline_count * 10_000) % 20_000 == 0 <==> baseline_count % 2 == 0) by (nonlinear_arith);
}

/// The baseline request with the given number: it names the endpoint whose
/// turn it is when an external endpoint is due, and none otherwise.
pub open spec fn baseline_for(baseline_count: nat, external_index: int) -> ProbeRequest {
    ProbeRequest::Baseline(
        if external_due(baseline_count) {
            Some(external_endpoint(external_index))
        } else {
            None
        },
    )
}

/// The baseline request with the given number; when an external endpoint is
/// due, the one whose turn it is.
pub fn baseline_request(baseline_count: u64, external_index: usize) -> (r: ProbeRequest)
    requires
        baseline_count <= MAX_BASELINE_COUNT,
        external_index < 2,
    ensures
        r == baseline_for(baseline_count as nat, external_index as int),
        r matches ProbeRequest::Baseline(target) && (if external_due(baseline_count as nat) {
            target matches Some(url) && url@ == external_target(external_index as int)
        } else {
            target is None
        }),
{
    let due = (baseline_count * 10) % 20 == 0;
    assert(due == external_due(baseline_count as nat));
    if due {
        if external_index == 0 {
            ProbeRequest::Baseline(Some(MICROSOFT_URL))
        } else {
            ProbeRequest::Baseline(Some(GOOGLE_URL))
        }
    } else {
        ProbeRequest::Baseline(None)
    }
}

/// A status that needs a focused refinement: a suspicion, or an open
/// incident whose area only a full probe can show to have recovered.
pub open spec fn needs_focus(s: StatusView) -> bool {
    ||| s.lifecycle == Some(DiagnosticLifecycle::Suspected)
    ||| (s.lifecycle == Some(DiagnosticLifecycle::Incident) || s.lifecycle == Some(
        DiagnosticLifecycle::Recovering,
    )) && (s.suspected_area == Some(DiagnosticArea::Dns) || s.suspected_area == Some(
        DiagnosticArea::External,
    ) || s.suspected_area == Some(DiagnosticArea::Unknown))
}

pub fn focused_needed(status: &NetworkDiagnosticStatus) -> (r: bool)
    ensures
        r == needs_focus(status@),
{
    match status.lifecycle {
        Some(DiagnosticLifecycle::Suspected) => true,
        Some(DiagnosticLifecycle::Incident) | Some(DiagnosticLifecycle::Recovering) => {
            match status.suspected_area {
                Some(DiagnosticArea::Dns) | Some(DiagnosticArea::External) | Some(
                    DiagnosticArea::Unknown,
                ) => true,
                _ => false,
            }
        },
        _ => false,
    }
}

/// What the runtime does next.
#[derive(Clone, Debug, PartialEq, Eq)]
pub enum NextProbe {
    /// Run this probe now.
    Probe(ProbeRequest),
    /// Wait this many milliseconds, then ask for the next baseline.
    Wait(u64),
}

/// The schedule's counters.
pub struct ScheduleView {
    pub baseline_count: u64,
    pub external_index: usize,
    pub last_focused_ns: Option<u64>,
}

/// The focused cooldown has passed at `now_ns`.
pub open spec fn cooldown_elapsed(last_focused_ns: Option<u64>, now_ns: u64) -> bool {
    match last_focused_ns {
        None => true,
        Some(last) => now_ns >= last + FOCUSED_COOLDOWN_NS,
    }
}

/// The schedule after a wait: one more baseline.
pub open spec fn waited(v: ScheduleView) -> ScheduleView {
    ScheduleView { baseline_count: (v.baseline_count + 1) as u64, ..v }
}

/// The schedule after `request` completed at `now_ns`: an endpoint checked
/// hands the turn to the other one, and a focused probe restarts the
/// cooldown.
pub open spec fn probed_view(v: ScheduleView, request: ProbeRequest, now_ns: u64) -> ScheduleView {
    ScheduleView {
        baseline_count: v.baseline_count,
        external_index: if request matches ProbeRequest::Baseline(Some(_)) {
            (1 - v.external_index) as usize
        } else {
            v.external_index
        },
        last_focused_ns: if request is Focused {
            Some(now_ns)
        } else {
            v.last_focused_ns
        },
    }
}

/// What follows `request`, completed with `status` at `now_ns`: a focused
/// refinement when the status needs one (after a baseline, only once the
/// cooldown has passed), never twice in a row; a wait otherwise.
pub open spec fn next_probe(
    v: ScheduleView,
    request: ProbeRequest,
    status: StatusView,
    now_ns: u64,
) -> NextProbe {
    match request {
        ProbeRequest::Full => if needs_focus(status) {
            NextProbe::Probe(ProbeRequest::Focused)
        } else {
            NextProbe::Wait(BASELINE_INTERVAL_MS)
        },
        ProbeRequest::Focused => NextProbe::Wait(BASELINE_INTERVAL_MS),
        ProbeRequest::Baseline(_) => if cooldown_elapsed(v.last_focused_ns, now_ns) && needs_focus(
            status,
        ) {
            NextProbe::Probe(ProbeRequest::Focused)
        } else {
            NextProbe::Wait(BASELINE_INTERVAL_MS)
        },
    }
}

/// Decides, probe after probe, what the diagnostics runtime does: a full
/// probe at startup, a baseline every ten seconds with the external
/// endpoints taking turns every second baseline, and a focused refinement
/// when the status needs one but no more often than the cooldown allows.
pub struct ProbeSchedule {
    baseline_count: u64,
    external_index: usize,
    last_focused_ns: Option<u64>,
}

impl View for ProbeSchedule {
    type V = ScheduleView;

    closed spec fn view(&self) -> ScheduleView {
        ScheduleView {
            baseline_count: self.baseline_count,
            external_index: self.external_index,
            last_focused_ns: self.last_focused_ns,
        }
    }
}

impl ProbeSchedule {
    /// The schedule's invariant: the external turn is one of the two endpoints.
    pub closed spec fn well_formed(&self) -> bool {
        self.external_index < 2
    }

    pub fn new() -> (r: Self)
        ensures
            r.well_formed(),
            r@.baseline_count == 0,
            r@.external_index == 0,
            r@.last_focused_ns is None,
    {
        ProbeSchedule { baseline_count: 0, external_index: 0, last_focused_ns: None }
    }

    /// The first probe: a full one.
    pub fn startup_request(&self) -> (r: ProbeRequest)
        ensures
            r is Full,
    {
        ProbeRequest::Full
    }

    /// Whether another baseline can be scheduled.
    pub fn can_schedule_baseline(&self) -> (r: bool)
        ensures
            r == (self@.baseline_count < MAX_BASELINE_COUNT),
    {
        self.baseline_count < MAX_BASELINE_COUNT
    }

    /// After a wait has elapsed: the next baseline request.
    pub fn after_wait(&mut self) -> (r: ProbeRequest)
        requires
            old(self).well_formed(),
            old(self)@.baseline_count < MAX_BASELINE_COUNT,
        ensures
            final(self).well_formed(),
            final(self)@ == waited(old(self)@),
            r == baseline_for(final(self)@.baseline_count as nat, old(self)@.external_index as int),
    {
        self.baseline_count = self.baseline_count + 1;
        baseline_request(self.baseline_count, self.external_index)
    }

    /// After a probe has completed with `status`, at `now_ns` nanoseconds
    /// since the runtime started: the next step.
    pub fn after_probe(
        &mut self,
        request: &ProbeRequest,
        status: &NetworkDiagnosticStatus,
        now_ns: u64,
    ) -> (r: NextProbe)
        requires
            old(self).well_formed(),
        ensures
            final(self).well_formed(),
            final(self)@ == probed_view(old(self)@, *request, now_ns),
            r == next_probe(old(self)@, *request, status@, now_ns),
    {
        match request {
            ProbeRequest::Full => {
                if focused_needed(status) {
                    NextProbe::Probe(ProbeRequest::Focused)
                } else {
                    NextProbe::Wait(BASELINE_INTERVAL_MS)
                }
            },
            ProbeRequest::Focused => {
                self.last_focused_ns = Some(now_ns);
                NextProbe::Wait(BASELINE_INTERVAL_MS)
            },
            ProbeRequest::Baseline(target) => {
                if target.is_some() {
                    self.external_index = (self.external_index + 1) % 2;
                }
                let cooldown = match self.last_focused_ns {
                    None => true,
                    Some(last) => now_ns.saturating_sub(last) >= FOCUSED_COOLDOWN_NS,
                };
                if cooldown && focused_needed(status) {
                    NextProbe::Probe(ProbeRequest::Focused)
                } else {
                    NextProbe::Wait(BASELINE_INTERVAL_MS)
                }
            },
        }
    }
}

/// Without focused refinements, the four baselines that follow an
/// even-numbered one ask for no endpoint, for the endpoint whose turn it is,
/// for no endpoint, and for the other endpoint; the turn then is back where
/// it was. Each of them is followed by a wait of the baseline interval.
pub proof fn external_endpoints_alternate(
    v: ScheduleView,
    status: StatusView,
    t1: u64,
    t2: u64,
    t3: u64,
    t4: u64,
)
    requires
        v.external_index < 2,
        v.baseline_count % 2 == 0,
        v.baseline_count + 4 <= MAX_BASELINE_COUNT,
        !needs_focus(status),
    ensures
        ({
            let w1 = waited(v);
            let r1 = baseline_for(w1.baseline_count as nat, w1.external_index as int);
            let w2 = waited(probed_view(w1, r1, t1));
            let r2 = baseline_for(w2.baseline_count as nat, w2.external_index as int);
            let w3 = waited(probed_view(w2, r2, t2));
            let r3 = baseline_for(w3.baseline_count as nat, w3.external_index as int);
            let w4 = waited(probed_view(w3, r3, t3));
            let r4 = baseline_for(w4.baseline_count as nat, w4.external_index as int);
            &&& r1 == ProbeRequest::Baseline(None)
            &&& r2 == ProbeRequest::Baseline(Some(external_endpoint(v.external_index as int)))
            &&& r3 == ProbeRequest::Baseline(None)
            &&& r4 == ProbeRequest::Baseline(Some(external_endpoint(1 - v.external_index)))
            &&& probed_view(w4, r4, t4).external_index == v.external_index
            &&& next_probe(w1, r1, status, t1) == NextProbe::Wait(BASELINE_INTERVAL_MS)
            &&& next_probe(w2, r2, status, t2) == NextProbe::Wait(BASELINE_INTERVAL_MS)
            &&& next_probe(w3, r3, status, t3) == NextProbe::Wait(BASELINE_INTERVAL_MS)
            &&& next_probe(w4, r4, status, t4) == NextProbe::Wait(BASELINE_INTERVAL_MS)
        }),
{
    let n = v.baseline_count as nat;
    external_due_on_even_baselines(n + 1);
    external_due_on_even_baselines(n + 2);
    external_due_on_even_baselines(n + 3);
    external_due_on_even_baselines(n + 4);
}

/// A focused refinement follows only a status that needs one, and never a
/// status of an incident or recovery in the local network or at the
/// gateway; after a baseline it comes only once the cooldown since the last
/// refinement has passed, and a refinement is never followed by another.
pub proof fn focused_refinements_are_spaced(
    v: ScheduleView,
    request: ProbeRequest,
    status: StatusView,
    now_ns: u64,
)
    ensures
        next_probe(v, request, status, now_ns) is Probe ==> {
            &&& next_probe(v, request, status, now_ns) == NextProbe::Probe(ProbeRequest::Focused)
            &&& needs_focus(status)
            &&& !(request is Focused)
            &&& request is Baseline ==> cooldown_elapsed(v.last_focused_ns, now_ns)
        },
        (status.lifecycle == Some(DiagnosticLifecycle::Incident) || status.lifecycle == Some(
            DiagnosticLifecycle::Recovering,
        )) && (status.suspected_area == Some(DiagnosticArea::LocalConnection) || status.suspected_area
            == Some(DiagnosticArea::GatewayOrLocal)) ==> next_probe(v, request, status, now_ns) is Wait,
{
}

/// The status a runtime reports when it cannot run on this platform.
pub fn unavailable_status() -> (r: NetworkDiagnosticStatus)
    ensures
        r@ == (StatusView {
            availability: RuntimeAvailability::Unavailable,
            ..NetworkDiagnosticStatus::starting_view()
        }),
{
    let mut status = NetworkDiagnosticStatus::starting();
    status.availability = RuntimeAvailability::Unavailable;
    status
}

/// The error that a failing runtime publishes.
pub open spec fn runtime_error(message: Seq<char>) -> ProbeErrorView {
    ProbeErrorView {
        stage: "runtime"@,
        code: "runtime_failed"@,
        message,
        native_code: None,
    }
}

/// Marks a status as failed by the runtime, keeping the last observation.
pub fn apply_runtime_error(status: &mut NetworkDiagnosticStatus, message: String)
    ensures
        final(status)@ == (StatusView {
            availability: RuntimeAvailability::Error,
            error: Some(runtime_error(message@)),
            ..old(status)@
        }),
{
    status.availability = RuntimeAvailability::Error;
    status.error = Some(
        ProbeError {
            stage: owned("runtime"),
            code: owned("runtime_failed"),
            message,
            native_code: None,
        },
    );
}

/// Feeds the result of a probe to the lifecycle. A collected snapshot is
/// assessed and applied (a full or focused probe counts as full) and the new
/// status is returned; a failed collection leaves the lifecycle alone and
/// its message is handed back.
pub fn run_probe(
    machine: &mut NetworkDiagnosticStateMachine,
    request: &ProbeRequest,
    result: Result<NetworkProbeSnapshot, String>,
) -> (r: Result<NetworkDiagnosticStatus, String>)
    ensures
        match result {
            Err(message) => r == Err::<NetworkDiagnosticStatus, String>(message) && final(machine)@
                == old(machine)@,
            Ok(snapshot) => {
                &&& final(machine)@ == step(
                    old(machine)@,
                    assessment_of(snapshot),
                    snapshot.collected_at@,
                    is_full_request(*request),
                )
                &&& r matches Ok(status) && status@ == final(machine)@.status
            },
        },
{
    match result {
        Err(message) => Err(message),
        Ok(snapshot) => {
            let observed_at = snapshot.collected_at.clone();
            let full = is_full_probe(request);
            let assessment = assess(snapshot);
            Ok(machine.apply(assessment, observed_at.as_str(), full))
        },
    }
}

/// The endpoint a request asks the coordinator to check.
pub open spec fn request_url(request: ProbeRequest) -> Option<&'static str> {
    match request {
        ProbeRequest::Baseline(url) => url,
        _ => None,
    }
}

/// Asks the coordinator for the round that `request` names: a full round for
/// the startup and focused probes, a baseline round with the request's
/// endpoint otherwise.
pub fn collect_request(
    coordinator: &NetworkProbeCoordinator,
    request: &ProbeRequest,
) -> (r: Result<NetworkProbeSnapshot, String>)
    ensures
        match coordinator.failure() {
            Some(m) => r matches Err(e) && e@ == m,
            None => match r {
                Ok(s) => coordinator.service().round(
                    s,
                    request_url(*request),
                    is_full_request(*request),
                ) && (coordinator.service().is_portable() ==> unsupported_snapshot(
                    s,
                    request_url(*request),
                    is_full_request(*request),
                )),
                Err(e) => e@ == lock_failed_message(),
            },
        },
{
    match request {
        ProbeRequest::Full | ProbeRequest::Focused => coordinator.collect_full(),
        ProbeRequest::Baseline(endpoint) => coordinator.collect_baseline(*endpoint),
    }
}

} // verus!
