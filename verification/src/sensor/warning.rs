//! Indications for sensor readings: high load and memory pressure are shown
//! at once, high temperatures only once they have lasted long enough.
use vstd::prelude::*;
use crate::text::{joined, owned, str_eq};
use super::domain::{
    reading_views, Indication, IndicationLevel, IndicationView, ReadingInput, ReadingView,
    ValueBand,
};

verus! {

/// How long a temperature must stay at one level before it is indicated.
pub const SUSTAINED_SECONDS: i64 = 10;

/// The level a temperature has crossed into.
#[derive(Clone, Copy, Debug, PartialEq, Eq, Structural)]
pub enum ThermalLevel {
    Advisory,
    Warning,
}

/// When each temperature reading crossed into its current level, by kind.
pub type TimerMap = Map<Seq<char>, (ThermalLevel, i64)>;

/// The kinds that occur among the readings.
pub open spec fn reading_kinds(readings: Seq<ReadingView>) -> Set<Seq<char>> {
    Set::new(|k: Seq<char>| exists|i: int| 0 <= i < readings.len() && #[trigger] readings[i].kind == k)
}

pub open spec fn reaches(b: ValueBand, threshold: ValueBand) -> bool {
    super::domain::band_rank(b) >= super::domain::band_rank(threshold)
}

/// The level of a temperature band against its advisory and warning bands.
pub open spec fn thermal_level(b: ValueBand, advisory: ValueBand, warning: ValueBand) -> Option<ThermalLevel> {
    if reaches(b, warning) {
        Some(ThermalLevel::Warning)
    } else if reaches(b, advisory) {
        Some(ThermalLevel::Advisory)
    } else {
        None
    }
}

pub open spec fn memory_message() -> Seq<char> {
    "메모리 사용률이 일반적인 권장 범위보다 높습니다."@
}

pub open spec fn temperature_message(label: Seq<char>) -> Seq<char> {
    label + "가 일반적인 권장 범위보다 높습니다."@
}

pub open spec fn indication_level_of(level: ThermalLevel) -> IndicationLevel {
    match level {
        ThermalLevel::Advisory => IndicationLevel::Advisory,
        ThermalLevel::Warning => IndicationLevel::Warning,
    }
}

/// One temperature reading: a new level (or a level change) starts its timer
/// now; the indication shows once the level has lasted the sustained time.
pub open spec fn temperature_step(
    timers: TimerMap,
    r: ReadingView,
    b: ValueBand,
    advisory: ValueBand,
    warning: ValueBand,
    now: i64,
) -> (TimerMap, Option<IndicationView>) {
    match thermal_level(b, advisory, warning) {
        None => (timers.remove(r.kind), None),
        Some(level) => {
            let kept = timers.contains_key(r.kind) && timers[r.kind].0 == level;
            let crossed_at = if kept { timers[r.kind].1 } else { now };
            let next = if kept { timers } else { timers.insert(r.kind, (level, now)) };
            let shown = now - crossed_at >= SUSTAINED_SECONDS;
            (
                next,
                if shown {
                    Some(
                        IndicationView {
                            level: indication_level_of(level),
                            message: temperature_message(r.label),
                        },
                    )
                } else {
                    None
                },
            )
        },
    }
}

/// The timers and the indication after one reading.
pub open spec fn reading_step(timers: TimerMap, r: ReadingView, now: i64) -> (
    TimerMap,
    Option<IndicationView>,
) {
    match r.band {
        None => (timers.remove(r.kind), None),
        Some(b) => if r.kind == "cpu_temperature"@ {
            temperature_step(timers, r, b, ValueBand::From80, ValueBand::From90, now)
        } else if r.kind == "gpu_temperature"@ {
            temperature_step(timers, r, b, ValueBand::From80, ValueBand::From85, now)
        } else if r.kind == "memory_usage"@ {
            (
                timers.remove(r.kind),
                if reaches(b, ValueBand::From95) {
                    Some(IndicationView { level: IndicationLevel::Warning, message: memory_message() })
                } else if reaches(b, ValueBand::From85) {
                    Some(IndicationView { level: IndicationLevel::Advisory, message: memory_message() })
                } else {
                    None
                },
            )
        } else if r.kind == "cpu_usage"@ || r.kind == "gpu_usage"@ {
            (
                timers.remove(r.kind),
                if reaches(b, ValueBand::From90) {
                    Some(IndicationView { level: IndicationLevel::HighLoad, message: "높은 부하"@ })
                } else {
                    None
                },
            )
        } else {
            (timers.remove(r.kind), None)
        },
    }
}

/// The readings taken in order, each seeing the timers the previous ones left.
pub open spec fn run_readings(timers: TimerMap, readings: Seq<ReadingView>, now: i64) -> (
    TimerMap,
    Seq<Option<IndicationView>>,
)
    decreases readings.len(),
{
    if readings.len() == 0 {
        (timers, Seq::empty())
    } else {
        let before = run_readings(timers, readings.drop_last(), now);
        let step = reading_step(before.0, readings.last(), now);
        (step.0, before.1.push(step.1))
    }
}

/// One evaluation: timers of kinds that no longer occur are dropped, then the
/// readings are taken in order.
pub open spec fn evaluation(timers: TimerMap, readings: Seq<ReadingView>, now: i64) -> (
    TimerMap,
    Seq<Option<IndicationView>>,
) {
    run_readings(timers.restrict(reading_kinds(readings)), readings, now)
}

pub open spec fn indication_views(v: Seq<Option<Indication>>) -> Seq<Option<IndicationView>> {
    v.map_values(
        |i: Option<Indication>|
            match i {
                Some(i) => Some(i@),
                None => None,
            },
    )
}

struct TimerEntry {
    kind: String,
    level: ThermalLevel,
    crossed_at: i64,
}

/// Remembers, across evaluations, when each temperature reading crossed into
/// its current level.
pub struct WarningEvaluator {
    entries: Vec<TimerEntry>,
    timers: Ghost<TimerMap>,
}

impl WarningEvaluator {
    /// The timers, by reading kind.
    pub closed spec fn timers(&self) -> TimerMap {
        self.timers@
    }

    /// The entries hold exactly the timers, one entry per kind.
    pub closed spec fn wf(&self) -> bool {
        &&& forall|i: int, j: int|
            0 <= i < j < self.entries@.len() ==> self.entries@[i].kind@
                != self.entries@[j].kind@
        &&& forall|i: int|
            0 <= i < self.entries@.len() ==> {
                let e = #[trigger] self.entries@[i];
                self.timers@.contains_key(e.kind@) && self.timers@[e.kind@] == (
                    e.level,
                    e.crossed_at,
                )
            }
        &&& forall|k: Seq<char>|
            #[trigger] self.timers@.contains_key(k) ==> exists|i: int|
                0 <= i < self.entries@.len() && #[trigger] self.entries@[i].kind@ == k
    }

    /// An evaluator with no running timer.
    pub fn new() -> (r: Self)
        ensures
            r.wf(),
            r.timers() == Map::<Seq<char>, (ThermalLevel, i64)>::empty(),
    {
        WarningEvaluator { entries: Vec::new(), timers: Ghost(Map::<Seq<char>, (ThermalLevel, i64)>::empty()) }
    }

    fn position(&self, kind: &str) -> (r: Option<usize>)
        requires
            self.wf(),
        ensures
            match r {
                Some(i) => i < self.entries@.len() && self.entries@[i as int].kind@ == kind@,
                None => !self.timers@.contains_key(kind@),
            },
    {
        let mut i: usize = 0;
        while i < self.entries.len()
            invariant
                self.wf(),
                i <= self.entries@.len(),
                forall|j: int| 0 <= j < i ==> self.entries@[j].kind@ != kind@,
            decreases self.entries@.len() - i,
        {
            if str_eq(self.entries[i].kind.as_str(), kind) {
                return Some(i);
            }
            i += 1;
        }
        None
    }

    fn forget(&mut self, kind: &str)
        requires
            old(self).wf(),
        ensures
            final(self).wf(),
            final(self).timers@ == old(self).timers@.remove(kind@),
    {
        match self.position(kind) {
            Some(i) => {
                let ghost before = self.entries@;
                self.entries.remove(i);
                self.timers = Ghost(self.timers@.remove(kind@));
                assert forall|j: int|
                    0 <= j < self.entries@.len() implies {
                    let e = #[trigger] self.entries@[j];
                    self.timers@.contains_key(e.kind@) && self.timers@[e.kind@] == (
                        e.level,
                        e.crossed_at,
                    )
                } by {
                    if j < i {
                        assert(self.entries@[j] == before[j]);
                    } else {
                        assert(self.entries@[j] == before[j + 1]);
                    }
                }
                assert forall|k: Seq<char>| #[trigger] self.timers@.contains_key(k) implies exists|
                    j: int,
                | 0 <= j < self.entries@.len() && #[trigger] self.entries@[j].kind@ == k by {
                    let j = choose|j: int| 0 <= j < before.len() && #[trigger] before[j].kind@ == k;
                    if j < i {
                        assert(self.entries@[j] == before[j]);
                    } else {
                        assert(j != i);
                        assert(self.entries@[j - 1] == before[j]);
                    }
                }
            },
            None => {
                assert(self.timers@.remove(kind@) =~= self.timers@);
            },
        }
    }

    fn start(&mut self, kind: &String, level: ThermalLevel, at: i64)
        requires
            old(self).wf(),
        ensures
            final(self).wf(),
            final(self).timers@ == old(self).timers@.insert(kind@, (level, at)),
    {
        let entry = TimerEntry { kind: kind.clone(), level, crossed_at: at };
        match self.position(kind.as_str()) {
            Some(i) => {
                let ghost before = self.entries@;
                self.entries.set(i, entry);
                self.timers = Ghost(self.timers@.insert(kind@, (level, at)));
                assert forall|k: Seq<char>| #[trigger] self.timers@.contains_key(k) implies exists|
                    j: int,
                | 0 <= j < self.entries@.len() && #[trigger] self.entries@[j].kind@ == k by {
                    if k != kind@ {
                        let j = choose|j: int| 0 <= j < before.len() && #[trigger] before[j].kind@ == k;
                        assert(self.entries@[j] == before[j]);
                    } else {
                        assert(self.entries@[i as int].kind@ == k);
                    }
                }
            },
            None => {
                let ghost before = self.entries@;
                self.entries.push(entry);
                self.timers = Ghost(self.timers@.insert(kind@, (level, at)));
                assert forall|k: Seq<char>| #[trigger] self.timers@.contains_key(k) implies exists|
                    j: int,
                | 0 <= j < self.entries@.len() && #[trigger] self.entries@[j].kind@ == k by {
                    if k != kind@ {
                        let j = choose|j: int| 0 <= j < before.len() && #[trigger] before[j].kind@ == k;
                        assert(self.entries@[j] == before[j]);
                    } else {
                        assert(self.entries@[before.len() as int].kind@ == k);
                    }
                }
            },
        }
    }

    fn level_at(&self, kind: &str) -> (r: Option<(ThermalLevel, i64)>)
        requires
            self.wf(),
        ensures
            r == (if self.timers@.contains_key(kind@) {
                Some(self.timers@[kind@])
            } else {
                None::<(ThermalLevel, i64)>
            }),
    {
        match self.position(kind) {
            Some(i) => Some((self.entries[i].level, self.entries[i].crossed_at)),
            None => None,
        }
    }

    /// Drops the timers of kinds that none of the readings has.
    fn keep_kinds(&mut self, readings: &Vec<ReadingInput>)
        requires
            old(self).wf(),
        ensures
            final(self).wf(),
            final(self).timers@ == old(self).timers@.restrict(
                reading_kinds(reading_views(readings@)),
            ),
    {
        let ghost kinds = reading_kinds(reading_views(readings@));
        let mut kept = WarningEvaluator::new();
        assert(entry_kinds(self.entries@, 0) =~= Set::empty());
        assert(kept.timers@ =~= self.timers@.restrict(kinds.intersect(entry_kinds(self.entries@, 0))));
        let mut i: usize = 0;
        while i < self.entries.len()
            invariant
                kinds == reading_kinds(reading_views(readings@)),
                self.wf(),
                kept.wf(),
                i <= self.entries@.len(),
                kept.timers@ == self.timers@.restrict(
                    kinds.intersect(entry_kinds(self.entries@, i as int)),
                ),
            decreases self.entries@.len() - i,
        {
            let ghost before = kept.timers@;
            let e = &self.entries[i];
            let ghost k = e.kind@;
            assert(self.timers@.contains_key(k) && self.timers@[k] == (e.level, e.crossed_at));
            assert forall|x: Seq<char>| #[trigger] entry_kinds(self.entries@, i + 1).contains(x) <==> entry_kinds(self.entries@, i as int).insert(k).contains(x) by {
                if entry_kinds(self.entries@, i + 1).contains(x) && x != k {
                    let b = choose|b: int| 0 <= b < i + 1 && #[trigger] self.entries@[b].kind@ == x;
                    assert(b != i);
                    assert(entry_kinds(self.entries@, i as int).contains(x));
                }
                if x == k {
                    assert(self.entries@[i as int].kind@ == x);
                }
                if entry_kinds(self.entries@, i as int).contains(x) {
                    let b = choose|b: int| 0 <= b < i && #[trigger] self.entries@[b].kind@ == x;
                    assert(self.entries@[b].kind@ == x);
                }
            }
            assert(entry_kinds(self.entries@, i + 1) =~= entry_kinds(self.entries@, i as int).insert(k));
            if kind_occurs(readings, e.kind.as_str()) {
                kept.start(&e.kind, e.level, e.crossed_at);
                assert(kinds.contains(k));
                let ghost s1 = kinds.intersect(entry_kinds(self.entries@, i + 1));
                assert(kinds.intersect(entry_kinds(self.entries@, i as int)).insert(k) =~= s1);
                assert(kept.timers@.dom() =~= self.timers@.restrict(s1).dom());
                assert(kept.timers@ =~= self.timers@.restrict(
                    kinds.intersect(entry_kinds(self.entries@, i + 1)),
                ));
            } else {
                assert(!kinds.contains(k));
                assert(kinds.intersect(entry_kinds(self.entries@, i as int)) =~= kinds.intersect(
                    entry_kinds(self.entries@, i + 1),
                ));
                assert(before =~= self.timers@.restrict(
                    kinds.intersect(entry_kinds(self.entries@, i + 1)),
                ));
            }
            i += 1;
        }
        assert(kept.timers@ =~= self.timers@.restrict(kinds));
        *self = kept;
    }

    /// Evaluates one snapshot's readings at `now_seconds` and returns the
    /// indication of each reading, in order.
    pub fn evaluate(&mut self, readings: &Vec<ReadingInput>, now_seconds: i64) -> (r: Vec<
        Option<Indication>,
    >)
        requires
            old(self).wf(),
        ensures
            final(self).wf(),
            (final(self).timers(), indication_views(r@)) == evaluation(
                old(self).timers(),
                reading_views(readings@),
                now_seconds,
            ),
    {
        self.keep_kinds(readings);
        let ghost start = self.timers@;
        let ghost views = reading_views(readings@);
        let mut out: Vec<Option<Indication>> = Vec::new();
        let mut i: usize = 0;
        while i < readings.len()
            invariant
                self.wf(),
                views == reading_views(readings@),
                i <= readings@.len(),
                (self.timers@, indication_views(out@)) == run_readings(start, views.take(i as int), now_seconds),
            decreases readings@.len() - i,
        {
            let ghost before = out@;
            let indication = self.evaluate_reading(&readings[i], now_seconds);
            out.push(indication);
            proof {
                assert(views.take(i + 1).drop_last() =~= views.take(i as int));
                assert(views.take(i + 1).last() == readings@[i as int]@);
                assert(indication_views(out@) =~= indication_views(before).push(
                    match indication {
                        Some(x) => Some(x@),
                        None => None,
                    },
                ));
            }
            i += 1;
        }
        assert(views.take(readings@.len() as int) =~= views);
        out
    }

    fn evaluate_reading(&mut self, reading: &ReadingInput, now: i64) -> (r: Option<Indication>)
        requires
            old(self).wf(),
        ensures
            final(self).wf(),
            (final(self).timers@, match r {
                Some(x) => Some(x@),
                None => None::<IndicationView>,
            }) == reading_step(old(self).timers@, reading@, now),
    {
        let kind = reading.kind.as_str();
        let band = match reading.band {
            Some(b) => b,
            None => {
                self.forget(kind);
                return None;
            },
        };
        proof {
            reveal_strlit("cpu_temperature");
            reveal_strlit("gpu_temperature");
            reveal_strlit("memory_usage");
            reveal_strlit("cpu_usage");
            reveal_strlit("gpu_usage");
        }
        if str_eq(kind, "cpu_temperature") {
            self.evaluate_temperature(reading, band, ValueBand::From80, ValueBand::From90, now)
        } else if str_eq(kind, "gpu_temperature") {
            self.evaluate_temperature(reading, band, ValueBand::From80, ValueBand::From85, now)
        } else if str_eq(kind, "memory_usage") {
            self.forget(kind);
            if band.reaches(ValueBand::From95) {
                Some(memory_indication(IndicationLevel::Warning))
            } else if band.reaches(ValueBand::From85) {
                Some(memory_indication(IndicationLevel::Advisory))
            } else {
                None
            }
        } else if str_eq(kind, "cpu_usage") || str_eq(kind, "gpu_usage") {
            self.forget(kind);
            if band.reaches(ValueBand::From90) {
                Some(Indication { level: IndicationLevel::HighLoad, message: owned("높은 부하") })
            } else {
                None
            }
        } else {
            self.forget(kind);
            None
        }
    }

    fn evaluate_temperature(
        &mut self,
        reading: &ReadingInput,
        band: ValueBand,
        advisory: ValueBand,
        warning: ValueBand,
        now: i64,
    ) -> (r: Option<Indication>)
        requires
            old(self).wf(),
        ensures
            final(self).wf(),
            (final(self).timers@, match r {
                Some(x) => Some(x@),
                None => None::<IndicationView>,
            }) == temperature_step(old(self).timers@, reading@, band, advisory, warning, now),
    {
        let level = if band.reaches(warning) {
            ThermalLevel::Warning
        } else if band.reaches(advisory) {
            ThermalLevel::Advisory
        } else {
            self.forget(reading.kind.as_str());
            return None;
        };
        let crossed_at = match self.level_at(reading.kind.as_str()) {
            Some((stored, at)) if stored == level => at,
            _ => {
                self.start(&reading.kind, level, now);
                now
            },
        };
        if (now as i128) - (crossed_at as i128) >= SUSTAINED_SECONDS as i128 {
            Some(
                Indication {
                    level: match level {
                        ThermalLevel::Advisory => IndicationLevel::Advisory,
                        ThermalLevel::Warning => IndicationLevel::Warning,
                    },
                    message: joined(reading.label.as_str(), "가 일반적인 권장 범위보다 높습니다."),
                },
            )
        } else {
            None
        }
    }
}

/// The kinds of the first `n` entries.
spec fn entry_kinds(entries: Seq<TimerEntry>, n: int) -> Set<Seq<char>> {
    Set::new(|k: Seq<char>| exists|b: int| 0 <= b < n && #[trigger] entries[b].kind@ == k)
}

impl Default for WarningEvaluator {
    fn default() -> (r: Self)
        ensures
            r.wf(),
            r.timers() == Map::<Seq<char>, (ThermalLevel, i64)>::empty(),
    {
        WarningEvaluator::new()
    }
}

fn kind_occurs(readings: &Vec<ReadingInput>, kind: &str) -> (r: bool)
    ensures
        r == reading_kinds(reading_views(readings@)).contains(kind@),
{
    let ghost views = reading_views(readings@);
    let mut i: usize = 0;
    while i < readings.len()
        invariant
            views == reading_views(readings@),
            i <= readings@.len(),
            forall|j: int| 0 <= j < i ==> views[j].kind != kind@,
        decreases readings@.len() - i,
    {
        if str_eq(readings[i].kind.as_str(), kind) {
            assert(views[i as int].kind == kind@);
            return true;
        }
        i += 1;
    }
    false
}

/// The memory indication at a level.
pub fn memory_indication(level: IndicationLevel) -> (r: Indication)
    ensures
        r@ == (IndicationView { level, message: memory_message() }),
{
    Indication { level, message: owned("메모리 사용률이 일반적인 권장 범위보다 높습니다.") }
}

/// A temperature indication is shown only when the reading has stayed at
/// that level for the sustained time: the timer the step leaves for its kind
/// holds the same level and a crossing at least that long ago.
pub proof fn temperature_indication_needs_sustained_level(
    timers: TimerMap,
    r: ReadingView,
    now: i64,
)
    requires
        r.kind == "cpu_temperature"@ || r.kind == "gpu_temperature"@,
        reading_step(timers, r, now).1 is Some,
    ensures
        ({
            let (next, shown) = reading_step(timers, r, now);
            &&& next.contains_key(r.kind)
            &&& now - next[r.kind].1 >= SUSTAINED_SECONDS
            &&& shown->0.level == indication_level_of(next[r.kind].0)
            &&& shown->0.message == temperature_message(r.label)
        }),
{
    reading_kinds_differ();
}

/// A temperature that newly crosses a threshold, or moves to another level,
/// starts its timer at the current time and is not indicated yet.
pub proof fn level_change_restarts_the_timer(timers: TimerMap, r: ReadingView, now: i64)
    requires
        r.kind == "cpu_temperature"@,
        r.band is Some,
        thermal_level(r.band->0, ValueBand::From80, ValueBand::From90) matches Some(level) && !(
        timers.contains_key(r.kind) && timers[r.kind].0 == level),
    ensures
        reading_step(timers, r, now).0 == timers.insert(
            r.kind,
            (thermal_level(r.band->0, ValueBand::From80, ValueBand::From90)->0, now),
        ),
        reading_step(timers, r, now).1 is None,
{
    reveal_strlit("cpu_temperature");
}

/// A reading without an available value clears its timer and carries no
/// indication.
pub proof fn unavailable_reading_clears_its_timer(timers: TimerMap, r: ReadingView, now: i64)
    requires
        r.band is None,
    ensures
        !reading_step(timers, r, now).0.contains_key(r.kind),
        reading_step(timers, r, now).1 is None,
{
}

/// Memory pressure and high load are indicated at once, whatever the timers.
pub proof fn pressure_is_indicated_at_once(timers: TimerMap, r: ReadingView, now: i64)
    requires
        r.band == Some(ValueBand::From95),
        r.kind == "memory_usage"@ || r.kind == "cpu_usage"@ || r.kind == "gpu_usage"@,
    ensures
        reading_step(timers, r, now).1 is Some,
        r.kind == "memory_usage"@ ==> reading_step(timers, r, now).1->0.level
            == IndicationLevel::Warning,
        r.kind != "memory_usage"@ ==> reading_step(timers, r, now).1->0.level
            == IndicationLevel::HighLoad,
        !reading_step(timers, r, now).0.contains_key(r.kind),
{
    reading_kinds_differ();
}

proof fn run_keeps_known_kinds(timers: TimerMap, readings: Seq<ReadingView>, now: i64)
    ensures
        forall|k: Seq<char>|
            #[trigger] run_readings(timers, readings, now).0.contains_key(k) ==> timers.contains_key(k)
                || reading_kinds(readings).contains(k),
        run_readings(timers, readings, now).1.len() == readings.len(),
    decreases readings.len(),
{
    if readings.len() > 0 {
        run_keeps_known_kinds(timers, readings.drop_last(), now);
        let before = run_readings(timers, readings.drop_last(), now);
        assert forall|k: Seq<char>|
            #[trigger] run_readings(timers, readings, now).0.contains_key(k) implies timers.contains_key(k)
                || reading_kinds(readings).contains(k) by {
            if k == readings.last().kind {
                assert(readings[readings.len() - 1].kind == k);
            } else if before.0.contains_key(k) {
                if reading_kinds(readings.drop_last()).contains(k) {
                    let i = choose|i: int| 0 <= i < readings.drop_last().len() && #[trigger] readings.drop_last()[i].kind == k;
                    assert(readings[i].kind == k);
                }
            }
        }
    }
}

/// After an evaluation, timers run only for kinds that the evaluated
/// readings have, and there is one indication per reading.
pub proof fn timers_follow_the_readings(timers: TimerMap, readings: Seq<ReadingView>, now: i64)
    ensures
        forall|k: Seq<char>|
            #[trigger] evaluation(timers, readings, now).0.contains_key(k) ==> reading_kinds(
                readings,
            ).contains(k),
        evaluation(timers, readings, now).1.len() == readings.len(),
{
    run_keeps_known_kinds(timers.restrict(reading_kinds(readings)), readings, now);
}

/// The reading kinds with rules are five different names.
proof fn reading_kinds_differ()
    ensures
        "cpu_temperature"@ != "gpu_temperature"@,
        "cpu_temperature"@ != "memory_usage"@,
        "cpu_temperature"@ != "cpu_usage"@,
        "cpu_temperature"@ != "gpu_usage"@,
        "gpu_temperature"@ != "memory_usage"@,
        "gpu_temperature"@ != "cpu_usage"@,
        "gpu_temperature"@ != "gpu_usage"@,
        "memory_usage"@ != "cpu_usage"@,
        "memory_usage"@ != "gpu_usage"@,
        "cpu_usage"@ != "gpu_usage"@,
{
    reveal_strlit("cpu_temperature");
    reveal_strlit("gpu_temperature");
    reveal_strlit("memory_usage");
    reveal_strlit("cpu_usage");
    reveal_strlit("gpu_usage");
    assert("cpu_temperature"@[0] != "gpu_temperature"@[0]);
    assert("cpu_temperature"@[0] != "memory_usage"@[0]);
    assert("cpu_temperature"@.len() != "cpu_usage"@.len());
    assert("cpu_temperature"@[0] != "gpu_usage"@[0]);
    assert("gpu_temperature"@[0] != "memory_usage"@[0]);
    assert("gpu_temperature"@[0] != "cpu_usage"@[0]);
    assert("gpu_temperature"@.len() != "gpu_usage"@.len());
    assert("memory_usage"@[0] != "cpu_usage"@[0]);
    assert("memory_usage"@[0] != "gpu_usage"@[0]);
    assert("cpu_usage"@[0] != "gpu_usage"@[0]);
}

/// A temperature indication needs a level that has lasted: a temperature
/// reading shows an indication only when a timer for its kind was already
/// running and had started at least ten seconds earlier.
pub proof fn temperature_indications_need_ten_seconds(timers: TimerMap, r: ReadingView, now: i64)
    requires
        r.kind == "cpu_temperature"@ || r.kind == "gpu_temperature"@,
    ensures
        reading_step(timers, r, now).1 is Some ==> timers.contains_key(r.kind) && now
            - timers[r.kind].1 >= 10,
{
    reading_kinds_differ();
}

/// A temperature that falls below its advisory threshold starts over: that
/// reading shows nothing and leaves no timer for its kind, so the next
/// reading of the kind, however high and whenever it comes, shows nothing
/// yet.
pub proof fn a_cooled_temperature_starts_over(
    timers: TimerMap,
    low: ReadingView,
    high: ReadingView,
    t1: i64,
    t2: i64,
)
    requires
        low.kind == "cpu_temperature"@ || low.kind == "gpu_temperature"@,
        high.kind == low.kind,
        low.band == Some(ValueBand::Below80),
    ensures
        !reading_step(timers, low, t1).0.contains_key(low.kind),
        reading_step(timers, low, t1).1 is None,
        reading_step(reading_step(timers, low, t1).0, high, t2).1 is None,
{
    reading_kinds_differ();
}

/// Memory pressure and high load are shown at once, whatever came before:
/// memory use from 95 is a warning, from 85 an advisory, below 85 nothing;
/// processor or graphics use from 90 is high load. None of them keeps a
/// timer.
pub proof fn pressure_and_load_are_shown_at_once(timers: TimerMap, r: ReadingView, now: i64)
    ensures
        r.kind == "memory_usage"@ && r.band == Some(ValueBand::From95) ==> reading_step(timers, r, now).1 is Some && reading_step(timers, r, now).1->0.level == IndicationLevel::Warning,
        r.kind == "memory_usage"@ && (r.band == Some(ValueBand::From85) || r.band == Some(
            ValueBand::From90,
        )) ==> reading_step(timers, r, now).1 is Some && reading_step(timers, r, now).1->0.level
            == IndicationLevel::Advisory,
        r.kind == "memory_usage"@ && (r.band == Some(ValueBand::Below80) || r.band == Some(
            ValueBand::From80,
        )) ==> reading_step(timers, r, now).1 is None,
        (r.kind == "cpu_usage"@ || r.kind == "gpu_usage"@) && (r.band == Some(ValueBand::From90)
            || r.band == Some(ValueBand::From95)) ==> reading_step(timers, r, now).1 is Some && reading_step(timers, r, now).1->0.level == IndicationLevel::HighLoad,
        r.kind == "memory_usage"@ || r.kind == "cpu_usage"@ || r.kind == "gpu_usage"@
            ==> !reading_step(timers, r, now).0.contains_key(r.kind),
{
    reading_kinds_differ();
}

/// A processor temperature held at one level is shown once it has lasted:
/// when its timer started at that level ten or more seconds ago, a reading
/// at the same level shows that level (a warning from 90, an advisory from
/// 80) and keeps the timer as it was.
pub proof fn a_held_temperature_is_shown(timers: TimerMap, r: ReadingView, now: i64)
    requires
        r.kind == "cpu_temperature"@,
        timers.contains_key(r.kind),
        now - timers[r.kind].1 >= 10,
    ensures
        (r.band == Some(ValueBand::From90) || r.band == Some(ValueBand::From95))
            && timers[r.kind].0 == ThermalLevel::Warning ==> reading_step(timers, r, now).1 is Some && reading_step(timers, r, now).1->0.level == IndicationLevel::Warning && reading_step(timers, r, now).0 == timers,
        (r.band == Some(ValueBand::From80) || r.band == Some(ValueBand::From85))
            && timers[r.kind].0 == ThermalLevel::Advisory ==> reading_step(timers, r, now).1 is Some && reading_step(timers, r, now).1->0.level == IndicationLevel::Advisory && reading_step(timers, r, now).0 == timers,
{
    reading_kinds_differ();
}

} // verus!
