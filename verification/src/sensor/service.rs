//! A sensor source paired with the indication rules that follow its readings
//! from one snapshot to the next.
use vstd::prelude::*;
use super::domain::{reading_views, Indication, ReadingInput};
use super::warning::{evaluation, indication_views, TimerMap, WarningEvaluator};

verus! {

/// Snapshots from a source, with indications evaluated over time.
pub struct SnapshotService<C> {
    pub collector: C,
    warnings: WarningEvaluator,
}

impl<C> SnapshotService<C> {
    /// The service's timers are consistent.
    pub closed spec fn wf(&self) -> bool {
        self.warnings.wf()
    }

    /// The sensor source.
    pub closed spec fn source(&self) -> C {
        self.collector
    }

    /// The running temperature timers, by reading kind.
    pub closed spec fn timers(&self) -> TimerMap {
        self.warnings.timers()
    }

    pub fn new(collector: C) -> (r: Self)
        ensures
            r.wf(),
            r.source() == collector,
            r.timers() == Map::<Seq<char>, (super::warning::ThermalLevel, i64)>::empty(),
    {
        SnapshotService { collector, warnings: WarningEvaluator::new() }
    }

    /// The indications of one snapshot's readings taken at `now_seconds`.
    pub fn indications(&mut self, readings: &Vec<ReadingInput>, now_seconds: i64) -> (r: Vec<
        Option<Indication>,
    >)
        requires
            old(self).wf(),
        ensures
            final(self).wf(),
            final(self).source() == old(self).source(),
            (final(self).timers(), indication_views(r@)) == evaluation(
                old(self).timers(),
                reading_views(readings@),
                now_seconds,
            ),
    {
        self.warnings.evaluate(readings, now_seconds)
    }
}

} // verus!
