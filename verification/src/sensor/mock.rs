//! The demonstration sensor source: fixed devices whose readings move in a
//! small repeating wave, with scenarios that exercise each reading state.
use vstd::prelude::*;
use crate::text::str_eq;
use super::domain::DeviceKind;

verus! {

/// Which demonstration data to produce.
#[derive(Clone, Copy, Debug, PartialEq, Eq, Structural)]
pub enum MockScenario {
    Normal,
    Threshold,
    Unsupported,
    Waiting,
    Error,
}

impl Default for MockScenario {
    fn default() -> (r: Self)
        ensures
            r == MockScenario::Normal,
    {
        MockScenario::Normal
    }
}

/// What a demonstration reading holds in a scenario, apart from the number
/// of an available value.
#[derive(Clone, Copy, Debug, PartialEq, Eq, Structural)]
pub enum MockReadingState {
    Available,
    UnsupportedDevice,
    UnsupportedApp,
    Waiting,
    Error,
}

/// The state of the reading of `kind` in `scenario`: the unsupported
/// scenario marks three graphics readings, the waiting scenario every
/// reading, the error scenario the processor temperature and the fan.
pub open spec fn mock_state(scenario: MockScenario, kind: Seq<char>) -> MockReadingState {
    match scenario {
        MockScenario::Unsupported => if kind == "gpu_temperature"@ || kind == "gpu_fan"@ {
            MockReadingState::UnsupportedDevice
        } else if kind == "gpu_power"@ {
            MockReadingState::UnsupportedApp
        } else {
            MockReadingState::Available
        },
        MockScenario::Waiting => MockReadingState::Waiting,
        MockScenario::Error => if kind == "cpu_temperature"@ || kind == "gpu_fan"@ {
            MockReadingState::Error
        } else {
            MockReadingState::Available
        },
        _ => MockReadingState::Available,
    }
}

/// The state of one demonstration reading.
pub fn reading_state(scenario: MockScenario, kind: &str) -> (r: MockReadingState)
    ensures
        r == mock_state(scenario, kind@),
{
    match scenario {
        MockScenario::Unsupported => {
            if str_eq(kind, "gpu_temperature") || str_eq(kind, "gpu_fan") {
                MockReadingState::UnsupportedDevice
            } else if str_eq(kind, "gpu_power") {
                MockReadingState::UnsupportedApp
            } else {
                MockReadingState::Available
            }
        },
        MockScenario::Waiting => MockReadingState::Waiting,
        MockScenario::Error => {
            if str_eq(kind, "cpu_temperature") || str_eq(kind, "gpu_fan") {
                MockReadingState::Error
            } else {
                MockReadingState::Available
            }
        },
        MockScenario::Normal | MockScenario::Threshold => MockReadingState::Available,
    }
}

/// The message of an erroneous demonstration reading.
pub open spec fn mock_error_message(kind: Seq<char>) -> Seq<char> {
    if kind == "cpu_temperature"@ {
        "온도 센서 응답이 없습니다."@
    } else {
        "팬 속도를 읽지 못했습니다."@
    }
}

/// The message of an erroneous demonstration reading.
pub fn error_message(kind: &str) -> (r: &'static str)
    ensures
        r@ == mock_error_message(kind@),
{
    if str_eq(kind, "cpu_temperature") {
        "온도 센서 응답이 없습니다."
    } else {
        "팬 속도를 읽지 못했습니다."
    }
}

/// Produces demonstration samples; the wave of each sample follows from how
/// many samples came before it.
#[derive(Debug)]
pub struct MockCollector {
    sample_index: u64,
}

impl MockCollector {
    /// The number of samples produced so far.
    pub closed spec fn samples(&self) -> u64 {
        self.sample_index
    }

    pub fn new() -> (r: Self)
        ensures
            r.samples() == 0,
    {
        MockCollector { sample_index: 0 }
    }

    /// The number of samples produced so far.
    pub fn sample_index(&self) -> (r: u64)
        ensures
            r == self.samples(),
    {
        self.sample_index
    }

    /// Starts the next sample: returns its wave offset (0 to 4) and counts it.
    pub fn next_wave(&mut self) -> (r: u64)
        requires
            old(self).samples() < u64::MAX,
        ensures
            r == old(self).samples() % 5,
            final(self).samples() == old(self).samples() + 1,
    {
        let wave = self.sample_index % 5;
        self.sample_index = self.sample_index + 1;
        wave
    }
}

impl Default for MockCollector {
    fn default() -> (r: Self)
        ensures
            r.samples() == 0,
    {
        MockCollector::new()
    }
}

/// One reading of a demonstration device, apart from its value: its kind,
/// its label and its unit.
#[derive(Clone, Copy, Debug)]
pub struct MockSlot {
    pub kind: &'static str,
    pub label: &'static str,
    pub unit: &'static str,
}

/// A demonstration device and its readings, in the order they are shown.
#[derive(Debug)]
pub struct MockDevice {
    pub kind: DeviceKind,
    pub name: &'static str,
    pub slots: Vec<MockSlot>,
}

/// A slot with the given kind, label and unit.
pub open spec fn slot_is(slot: MockSlot, kind: Seq<char>, label: Seq<char>, unit: Seq<char>) -> bool {
    slot.kind@ == kind && slot.label@ == label && slot.unit@ == unit
}

fn slot(kind: &'static str, label: &'static str, unit: &'static str) -> (r: MockSlot)
    ensures
        slot_is(r, kind@, label@, unit@),
{
    MockSlot { kind, label, unit }
}

/// The demonstration devices: a processor with usage, temperature, clock
/// and power; a graphics card with usage, temperature, clock, power, fan
/// and video memory; and system memory with usage and the amount in use.
pub fn mock_devices() -> (r: Vec<MockDevice>)
    ensures
        r@.len() == 3,
        r@[0].kind == DeviceKind::Cpu,
        r@[0].name@ == "Mock AMD Ryzen 7 7800X3D"@,
        r@[0].slots@.len() == 4,
        slot_is(r@[0].slots@[0], "cpu_usage"@, "사용률"@, "%"@),
        slot_is(r@[0].slots@[1], "cpu_temperature"@, "온도"@, "C"@),
        slot_is(r@[0].slots@[2], "cpu_clock"@, "클럭"@, "GHz"@),
        slot_is(r@[0].slots@[3], "cpu_power"@, "전력"@, "W"@),
        r@[1].kind == DeviceKind::Gpu,
        r@[1].name@ == "Mock NVIDIA GeForce RTX 4070"@,
        r@[1].slots@.len() == 6,
        slot_is(r@[1].slots@[0], "gpu_usage"@, "사용률"@, "%"@),
        slot_is(r@[1].slots@[1], "gpu_temperature"@, "온도"@, "C"@),
        slot_is(r@[1].slots@[2], "gpu_clock"@, "클럭"@, "GHz"@),
        slot_is(r@[1].slots@[3], "gpu_power"@, "전력"@, "W"@),
        slot_is(r@[1].slots@[4], "gpu_fan"@, "팬"@, "%"@),
        slot_is(r@[1].slots@[5], "gpu_vram"@, "VRAM"@, "GB"@),
        r@[2].kind == DeviceKind::Memory,
        r@[2].name@ == "Mock System Memory 32 GB"@,
        r@[2].slots@.len() == 2,
        slot_is(r@[2].slots@[0], "memory_usage"@, "사용률"@, "%"@),
        slot_is(r@[2].slots@[1], "memory_used"@, "사용 중"@, "GB"@),
{
    let mut cpu = Vec::new();
    cpu.push(slot("cpu_usage", "사용률", "%"));
    cpu.push(slot("cpu_temperature", "온도", "C"));
    cpu.push(slot("cpu_clock", "클럭", "GHz"));
    cpu.push(slot("cpu_power", "전력", "W"));
    let mut gpu = Vec::new();
    gpu.push(slot("gpu_usage", "사용률", "%"));
    gpu.push(slot("gpu_temperature", "온도", "C"));
    gpu.push(slot("gpu_clock", "클럭", "GHz"));
    gpu.push(slot("gpu_power", "전력", "W"));
    gpu.push(slot("gpu_fan", "팬", "%"));
    gpu.push(slot("gpu_vram", "VRAM", "GB"));
    let mut memory = Vec::new();
    memory.push(slot("memory_usage", "사용률", "%"));
    memory.push(slot("memory_used", "사용 중", "GB"));
    let mut devices = Vec::new();
    devices.push(MockDevice { kind: DeviceKind::Cpu, name: "Mock AMD Ryzen 7 7800X3D", slots: cpu });
    devices.push(
        MockDevice { kind: DeviceKind::Gpu, name: "Mock NVIDIA GeForce RTX 4070", slots: gpu },
    );
    devices.push(
        MockDevice { kind: DeviceKind::Memory, name: "Mock System Memory 32 GB", slots: memory },
    );
    devices
}

} // verus!
