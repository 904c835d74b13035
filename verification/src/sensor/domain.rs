//! The plain parts of a sensor snapshot that the indication rules read.
use vstd::prelude::*;

verus! {

/// How strongly a reading asks for attention.
#[derive(Clone, Copy, Debug, PartialEq, Eq, Structural)]
pub enum IndicationLevel {
    Advisory,
    Warning,
    HighLoad,
}

/// A note attached to one reading.
#[derive(Clone, Debug, PartialEq, Eq)]
pub struct Indication {
    pub level: IndicationLevel,
    pub message: String,
}

pub struct IndicationView {
    pub level: IndicationLevel,
    pub message: Seq<char>,
}

impl View for Indication {
    type V = IndicationView;

    open spec fn view(&self) -> IndicationView {
        IndicationView { level: self.level, message: self.message@ }
    }
}

/// The device a group of readings belongs to.
#[derive(Clone, Copy, Debug, PartialEq, Eq, Structural)]
pub enum DeviceKind {
    Cpu,
    Gpu,
    Memory,
}

/// Where an available reading stands against the fixed thresholds of the
/// indication rules (80, 85, 90 and 95 in the reading's unit): the highest
/// threshold it reaches.
#[derive(Clone, Copy, Debug, PartialEq, Eq, Structural)]
pub enum ValueBand {
    Below80,
    From80,
    From85,
    From90,
    From95,
}

/// The number of thresholds a band reaches.
pub open spec fn band_rank(b: ValueBand) -> nat {
    match b {
        ValueBand::Below80 => 0,
        ValueBand::From80 => 1,
        ValueBand::From85 => 2,
        ValueBand::From90 => 3,
        ValueBand::From95 => 4,
    }
}

impl ValueBand {
    /// Whether this band reaches the threshold of `other`.
    pub fn reaches(self, other: ValueBand) -> (r: bool)
        ensures
            r == (band_rank(self) >= band_rank(other)),
    {
        self.rank() >= other.rank()
    }

    fn rank(self) -> (r: u8)
        ensures
            r == band_rank(self),
    {
        match self {
            ValueBand::Below80 => 0,
            ValueBand::From80 => 1,
            ValueBand::From85 => 2,
            ValueBand::From90 => 3,
            ValueBand::From95 => 4,
        }
    }
}

/// One reading as the indication rules see it: its kind, its label, and the
/// band of its value when the value is available.
#[derive(Clone, Debug)]
pub struct ReadingInput {
    pub kind: String,
    pub label: String,
    pub band: Option<ValueBand>,
}

pub struct ReadingView {
    pub kind: Seq<char>,
    pub label: Seq<char>,
    pub band: Option<ValueBand>,
}

impl View for ReadingInput {
    type V = ReadingView;

    open spec fn view(&self) -> ReadingView {
        ReadingView { kind: self.kind@, label: self.label@, band: self.band }
    }
}

pub open spec fn reading_views(v: Seq<ReadingInput>) -> Seq<ReadingView> {
    v.map_values(|r: ReadingInput| r@)
}

} // verus!
