use vstd::prelude::*;
use crate::text::owned;
use super::domain::{
    DiagnosticArea, DiagnosticLifecycle, EvidenceSource, NetworkDiagnosticStatus,
    RuntimeAvailability, StatusView,
};
use super::observation::{shows_recovery, AssessmentView, DiagnosticAssessment};

verus! {

/// The abstract state of the diagnostic lifecycle: the published status,
/// the failed sources of the previous observation, and the area of the
/// open incident.
#[verifier::ext_equal]
pub struct MachineView {
    pub status: StatusView,
    pub previous_failed_sources: Seq<EvidenceSource>,
    pub incident_area: Option<DiagnosticArea>,
}

/// An assessment confirms the suspicion: it names a concrete (not unknown)
/// area and either repeats the suspected area, or refines an unknown
/// suspicion during a full probe with a failure that persists and a new
/// independent failure.
pub open spec fn confirms(m: MachineView, a: AssessmentView, full: bool) -> bool {
    confirms_after(m.status.suspected_area, m.previous_failed_sources, a, full)
}

/// Whether an assessment confirms a suspicion of `previous_area`, given the
/// sources that failed in the observation before: it points at a concrete
/// area that is the suspected one, or, after an unknown suspicion and on a
/// full probe, it keeps one earlier failure and adds an independent one.
pub open spec fn confirms_after(
    previous_area: Option<DiagnosticArea>,
    previous_failed_sources: Seq<EvidenceSource>,
    a: AssessmentView,
    full: bool,
) -> bool {
    match a.area {
        None => false,
        Some(current) => {
            if current == DiagnosticArea::Unknown {
                false
            } else if previous_area == Some(current) {
                true
            } else if previous_area != Some(DiagnosticArea::Unknown) || !full {
                false
            } else {
                &&& exists|i: int|
                    0 <= i < a.failed_sources.len() && previous_failed_sources.contains(
                        #[trigger] a.failed_sources[i],
                    )
                &&& exists|i: int|
                    0 <= i < a.failed_sources.len() && !previous_failed_sources.contains(
                        #[trigger] a.failed_sources[i],
                    )
            }
        },
    }
}

/// The lifecycle that follows an observation, with the suspected area to
/// publish and the area of the open incident afterwards.
pub open spec fn next_lifecycle(m: MachineView, a: AssessmentView, full: bool) -> (
    DiagnosticLifecycle,
    Option<DiagnosticArea>,
    Option<DiagnosticArea>,
) {
    let normal = a.area is None;
    let ia = m.incident_area;
    match m.status.lifecycle {
        None | Some(DiagnosticLifecycle::Normal) => if normal {
            (DiagnosticLifecycle::Normal, None, None)
        } else {
            (DiagnosticLifecycle::Suspected, a.area, ia)
        },
        Some(DiagnosticLifecycle::Suspected) => if normal {
            (DiagnosticLifecycle::Normal, None, None)
        } else if confirms(m, a, full) {
            (DiagnosticLifecycle::Incident, a.area, a.area)
        } else {
            (DiagnosticLifecycle::Suspected, a.area, ia)
        },
        Some(DiagnosticLifecycle::Incident) => if normal {
            if ia matches Some(x) && shows_recovery(a.area, a.checked_sources, x) {
                (DiagnosticLifecycle::Recovering, ia, ia)
            } else {
                (DiagnosticLifecycle::Incident, ia, ia)
            }
        } else {
            (DiagnosticLifecycle::Incident, ia, ia)
        },
        Some(DiagnosticLifecycle::Recovering) => if normal {
            (DiagnosticLifecycle::Resolved, ia, ia)
        } else {
            (DiagnosticLifecycle::Incident, ia, ia)
        },
        Some(DiagnosticLifecycle::Resolved) => if normal {
            (DiagnosticLifecycle::Normal, None, None)
        } else {
            (DiagnosticLifecycle::Suspected, a.area, None)
        },
    }
}

/// The state after applying an assessment observed at `observed_at`: the
/// lifecycle moves on, the runtime is running, the latest observation time
/// and evidence replace the previous ones, any error is cleared, and a full
/// probe also records its time.
pub open spec fn step(
    m: MachineView,
    a: AssessmentView,
    observed_at: Seq<char>,
    full: bool,
) -> MachineView {
    let (lifecycle, area, incident_area) = next_lifecycle(m, a, full);
    MachineView {
        status: StatusView {
            availability: RuntimeAvailability::Running,
            lifecycle: Some(lifecycle),
            suspected_area: area,
            observed_at: Some(observed_at),
            last_full_probe_at: if full {
                Some(observed_at)
            } else {
                m.status.last_full_probe_at
            },
            evidence: a.evidence,
            error: None,
        },
        previous_failed_sources: a.failed_sources,
        incident_area,
    }
}

/// The state of a machine that has seen nothing yet.
pub open spec fn initial_machine() -> MachineView {
    MachineView {
        status: StatusView {
            availability: RuntimeAvailability::Starting,
            lifecycle: None,
            suspected_area: None,
            observed_at: None,
            last_full_probe_at: None,
            evidence: Seq::empty(),
            error: None,
        },
        previous_failed_sources: Seq::empty(),
        incident_area: None,
    }
}

/// Turns a stream of assessments into the published diagnostic status.
pub struct NetworkDiagnosticStateMachine {
    status: NetworkDiagnosticStatus,
    previous_failed_sources: Vec<EvidenceSource>,
    incident_area: Option<DiagnosticArea>,
}

impl View for NetworkDiagnosticStateMachine {
    type V = MachineView;

    closed spec fn view(&self) -> MachineView {
        MachineView {
            status: self.status@,
            previous_failed_sources: self.previous_failed_sources@,
            incident_area: self.incident_area,
        }
    }
}

fn contains_source(sources: &Vec<EvidenceSource>, source: EvidenceSource) -> (r: bool)
    ensures
        r == sources@.contains(source),
{
    let mut i: usize = 0;
    while i < sources.len()
        invariant
            i <= sources@.len(),
            forall|j: int| 0 <= j < i ==> sources@[j] != source,
        decreases sources@.len() - i,
    {
        if sources[i] == source {
            assert(sources@[i as int] == source);
            return true;
        }
        i += 1;
    }
    false
}

impl NetworkDiagnosticStateMachine {
    /// Every machine's bookkeeping agrees with its lifecycle.
    #[verifier::type_invariant]
    closed spec fn bookkeeping_agrees(&self) -> bool {
        consistent(self@)
    }

    pub fn new() -> (r: Self)
        ensures
            r@ == initial_machine(),
    {
        let r = NetworkDiagnosticStateMachine {
            status: NetworkDiagnosticStatus::starting(),
            previous_failed_sources: Vec::new(),
            incident_area: None,
        };
        assert(r@ =~= initial_machine());
        r
    }

    /// The published status.
    pub fn status(&self) -> (r: NetworkDiagnosticStatus)
        ensures
            r@ == self@.status,
            consistent(self@),
    {
        proof {
            use_type_invariant(self);
        }
        self.status.clone()
    }

    /// Applies the assessment of one observation and returns the new status.
    pub fn apply(
        &mut self,
        assessment: DiagnosticAssessment,
        observed_at: &str,
        full: bool,
    ) -> (r: NetworkDiagnosticStatus)
        ensures
            consistent(old(self)@),
            final(self)@ == step(old(self)@, assessment@, observed_at@, full),
            r@ == final(self)@.status,
    {
        proof {
            use_type_invariant(&*self);
        }
        let ghost before = self@;
        let previous_lifecycle = self.status.lifecycle;
        let previous_area = self.status.suspected_area;
        let is_normal = assessment.is_normal();
        let confirmed = self.confirms(&assessment, previous_area, full);

        let (lifecycle, suspected_area, incident_area) = match previous_lifecycle {
            None | Some(DiagnosticLifecycle::Normal) => {
                if is_normal {
                    (DiagnosticLifecycle::Normal, None, None)
                } else {
                    (DiagnosticLifecycle::Suspected, assessment.area, self.incident_area)
                }
            },
            Some(DiagnosticLifecycle::Suspected) => {
                if is_normal {
                    (DiagnosticLifecycle::Normal, None, None)
                } else if confirmed {
                    (DiagnosticLifecycle::Incident, assessment.area, assessment.area)
                } else {
                    (DiagnosticLifecycle::Suspected, assessment.area, self.incident_area)
                }
            },
            Some(DiagnosticLifecycle::Incident) => {
                let area = self.incident_area;
                if is_normal {
                    let recovered = match &area {
                        Some(a) => assessment.verifies_recovery_for(a),
                        None => false,
                    };
                    if recovered {
                        (DiagnosticLifecycle::Recovering, area, area)
                    } else {
                        (DiagnosticLifecycle::Incident, area, area)
                    }
                } else {
                    (DiagnosticLifecycle::Incident, area, area)
                }
            },
            Some(DiagnosticLifecycle::Recovering) => {
                let area = self.incident_area;
                if is_normal {
                    (DiagnosticLifecycle::Resolved, area, area)
                } else {
                    (DiagnosticLifecycle::Incident, area, area)
                }
            },
            Some(DiagnosticLifecycle::Resolved) => {
                if is_normal {
                    (DiagnosticLifecycle::Normal, None, None)
                } else {
                    (DiagnosticLifecycle::Suspected, assessment.area, None)
                }
            },
        };

        let mut status = self.status.clone();
        status.availability = RuntimeAvailability::Running;
        status.lifecycle = Some(lifecycle);
        status.suspected_area = suspected_area;
        status.observed_at = Some(owned(observed_at));
        if full {
            status.last_full_probe_at = Some(owned(observed_at));
        }
        status.evidence = assessment.evidence;
        status.error = None;
        let next = NetworkDiagnosticStateMachine {
            status,
            previous_failed_sources: assessment.failed_sources,
            incident_area,
        };
        assert(next@ =~= step(before, assessment@, observed_at@, full));
        proof {
            lifecycle_stays_consistent(before, assessment@, observed_at@, full);
        }
        *self = next;
        self.status()
    }

    fn confirms(
        &self,
        assessment: &DiagnosticAssessment,
        previous_area: Option<DiagnosticArea>,
        full: bool,
    ) -> (r: bool)
        ensures
            r == confirms_after(
                previous_area,
                self@.previous_failed_sources,
                assessment@,
                full,
            ),
    {
        let current_area = match assessment.area {
            Some(a) => a,
            None => {
                return false;
            },
        };
        if current_area == DiagnosticArea::Unknown {
            return false;
        }
        if previous_area == Some(current_area) {
            return true;
        }
        if previous_area != Some(DiagnosticArea::Unknown) || !full {
            return false;
        }
        let mut retains_failure = false;
        let mut adds_independent_failure = false;
        let mut i: usize = 0;
        while i < assessment.failed_sources.len()
            invariant
                i <= assessment.failed_sources@.len(),
                retains_failure == exists|j: int|
                    0 <= j < i && self.previous_failed_sources@.contains(
                        #[trigger] assessment.failed_sources@[j],
                    ),
                adds_independent_failure == exists|j: int|
                    0 <= j < i && !self.previous_failed_sources@.contains(
                        #[trigger] assessment.failed_sources@[j],
                    ),
            decreases assessment.failed_sources@.len() - i,
        {
            let source = assessment.failed_sources[i];
            if contains_source(&self.previous_failed_sources, source) {
                retains_failure = true;
            } else {
                adds_independent_failure = true;
            }
            i += 1;
        }
        proof {
            let a = assessment@;
            let m = self@;
            assert(a.failed_sources == assessment.failed_sources@);
            assert(m.previous_failed_sources == self.previous_failed_sources@);
            if retains_failure {
                let j = choose|j: int|
                    0 <= j < i && self.previous_failed_sources@.contains(
                        #[trigger] assessment.failed_sources@[j],
                    );
                assert(m.previous_failed_sources.contains(a.failed_sources[j]));
            }
            if adds_independent_failure {
                let j = choose|j: int|
                    0 <= j < i && !self.previous_failed_sources@.contains(
                        #[trigger] assessment.failed_sources@[j],
                    );
                assert(!m.previous_failed_sources.contains(a.failed_sources[j]));
            }
        }
        retains_failure && adds_independent_failure
    }
}

impl Default for NetworkDiagnosticStateMachine {
    fn default() -> (r: Self)
        ensures
            r@ == initial_machine(),
    {
        Self::new()
    }
}


// ---------------------------------------------------------------------------
// Laws of the lifecycle
// ---------------------------------------------------------------------------

/// A lifecycle in which an incident is open or just closed.
pub open spec fn holds_incident(l: Option<DiagnosticLifecycle>) -> bool {
    l == Some(DiagnosticLifecycle::Incident) || l == Some(DiagnosticLifecycle::Recovering) || l
        == Some(DiagnosticLifecycle::Resolved)
}

/// The machine's bookkeeping agrees with its lifecycle: outside an incident
/// no incident area is kept; during one the incident area is a concrete
/// area and is the published suspected area.
pub open spec fn consistent(m: MachineView) -> bool {
    if holds_incident(m.status.lifecycle) {
        &&& m.incident_area is Some
        &&& m.incident_area != Some(DiagnosticArea::Unknown)
        &&& m.status.suspected_area == m.incident_area
    } else {
        m.incident_area is None
    }
}

/// Every state the machine reaches is consistent: the initial state is,
/// and applying any assessment keeps it so.
pub proof fn lifecycle_stays_consistent(m: MachineView, a: AssessmentView, at: Seq<char>, full: bool)
    ensures
        consistent(initial_machine()),
        consistent(m) ==> consistent(step(m, a, at, full)),
{
}

/// An incident is opened only from a suspicion that the new assessment
/// confirms; otherwise an incident lifecycle can only continue one that was
/// already open.
pub proof fn incident_needs_confirmation(m: MachineView, a: AssessmentView, at: Seq<char>, full: bool)
    ensures
        step(m, a, at, full).status.lifecycle == Some(DiagnosticLifecycle::Incident) ==> {
            ||| m.status.lifecycle == Some(DiagnosticLifecycle::Suspected) && confirms(m, a, full)
            ||| m.status.lifecycle == Some(DiagnosticLifecycle::Incident)
            ||| m.status.lifecycle == Some(DiagnosticLifecycle::Recovering)
        },
{
}

/// An assessment that points only at an unknown area never confirms a
/// suspicion, so it never opens an incident.
pub proof fn unknown_area_never_opens_incident(
    m: MachineView,
    a: AssessmentView,
    at: Seq<char>,
    full: bool,
)
    ensures
        a.area == Some(DiagnosticArea::Unknown) ==> !confirms(m, a, full),
        a.area == Some(DiagnosticArea::Unknown) && m.status.lifecycle != Some(
            DiagnosticLifecycle::Incident,
        ) && m.status.lifecycle != Some(DiagnosticLifecycle::Recovering) ==> step(
            m,
            a,
            at,
            full,
        ).status.lifecycle != Some(DiagnosticLifecycle::Incident),
{
}

/// The first observation never reports an incident: a fault is first only
/// suspected.
pub proof fn first_observation_is_never_an_incident(a: AssessmentView, at: Seq<char>, full: bool)
    ensures
        step(initial_machine(), a, at, full).status.lifecycle == Some(
            if a.area is None {
                DiagnosticLifecycle::Normal
            } else {
                DiagnosticLifecycle::Suspected
            },
        ),
{
}

/// An incident is resolved only through recovery: it moves to recovering
/// only on a normal assessment that checked every source of the incident
/// area, and to resolved only on a further normal assessment.
pub proof fn resolution_goes_through_recovery(
    m: MachineView,
    a: AssessmentView,
    at: Seq<char>,
    full: bool,
)
    ensures
        step(m, a, at, full).status.lifecycle == Some(DiagnosticLifecycle::Recovering) ==> {
            &&& m.status.lifecycle == Some(DiagnosticLifecycle::Incident)
            &&& m.incident_area matches Some(x) && shows_recovery(a.area, a.checked_sources, x)
        },
        step(m, a, at, full).status.lifecycle == Some(DiagnosticLifecycle::Resolved) ==> {
            &&& m.status.lifecycle == Some(DiagnosticLifecycle::Recovering)
            &&& a.area is None
        },
{
}

/// A failed observation during recovery reopens the same incident.
pub proof fn relapse_reopens_the_incident(
    m: MachineView,
    a: AssessmentView,
    at: Seq<char>,
    full: bool,
)
    ensures
        m.status.lifecycle == Some(DiagnosticLifecycle::Recovering) && a.area is Some ==> {
            &&& step(m, a, at, full).status.lifecycle == Some(DiagnosticLifecycle::Incident)
            &&& step(m, a, at, full).status.suspected_area == m.incident_area
            &&& step(m, a, at, full).incident_area == m.incident_area
        },
{
}

/// Outside an open incident, a normal assessment returns to normal and
/// forgets any suspicion.
pub proof fn normal_observation_clears_suspicion(
    m: MachineView,
    a: AssessmentView,
    at: Seq<char>,
    full: bool,
)
    ensures
        a.area is None && m.status.lifecycle != Some(DiagnosticLifecycle::Incident)
            && m.status.lifecycle != Some(DiagnosticLifecycle::Recovering) ==> {
            &&& step(m, a, at, full).status.lifecycle == Some(DiagnosticLifecycle::Normal)
            &&& step(m, a, at, full).status.suspected_area is None
            &&& step(m, a, at, full).incident_area is None
        },
{
}

/// The published status always describes the latest observation: its time,
/// its evidence, a running runtime and no error; the time of the last full
/// probe changes only on a full probe.
pub proof fn latest_observation_is_published(
    m: MachineView,
    a: AssessmentView,
    at: Seq<char>,
    full: bool,
)
    ensures
        step(m, a, at, full).status.observed_at == Some(at),
        step(m, a, at, full).status.evidence == a.evidence,
        step(m, a, at, full).status.availability == RuntimeAvailability::Running,
        step(m, a, at, full).status.error is None,
        step(m, a, at, full).status.last_full_probe_at == if full {
            Some(at)
        } else {
            m.status.last_full_probe_at
        },
        step(m, a, at, full).previous_failed_sources == a.failed_sources,
{
}

/// A suspicion always names the area of the observation just applied:
/// whenever the lifecycle comes out suspected, the published suspected area
/// is the new assessment's area. An incident opened from a suspicion names
/// the confirming assessment's area, and a return to normal publishes no
/// area and keeps no incident.
pub proof fn suspicion_follows_the_latest_assessment(
    m: MachineView,
    a: AssessmentView,
    at: Seq<char>,
    full: bool,
)
    ensures
        step(m, a, at, full).status.lifecycle == Some(DiagnosticLifecycle::Suspected)
            ==> step(m, a, at, full).status.suspected_area == a.area,
        m.status.lifecycle == Some(DiagnosticLifecycle::Suspected) && step(
            m,
            a,
            at,
            full,
        ).status.lifecycle == Some(DiagnosticLifecycle::Incident) ==> {
            &&& step(m, a, at, full).status.suspected_area == a.area
            &&& step(m, a, at, full).incident_area == a.area
        },
        step(m, a, at, full).status.lifecycle == Some(DiagnosticLifecycle::Normal) ==> {
            &&& step(m, a, at, full).status.suspected_area is None
            &&& step(m, a, at, full).incident_area is None
        },
{
}

} // verus!
