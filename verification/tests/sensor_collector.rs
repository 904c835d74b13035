use pc_health::sensor::collector::{
    required_telemetry,
    cpu_temperature_sensor, cpu_time_deltas, filetime_ticks, non_empty_or_default, to_wide,
    CpuTimes, WindowsCollector,
};
use pc_health::sensor::mock::{
    error_message, reading_state, MockCollector, MockReadingState, MockScenario,
};

const KINDS: [&str; 12] = [
    "cpu_usage",
    "cpu_temperature",
    "cpu_clock",
    "cpu_power",
    "gpu_usage",
    "gpu_temperature",
    "gpu_clock",
    "gpu_power",
    "gpu_fan",
    "gpu_vram",
    "memory_usage",
    "memory_used",
];

#[test]
fn unsupported_scenario_marks_only_selected_gpu_readings() {
    let states: Vec<MockReadingState> = KINDS
        .iter()
        .map(|kind| reading_state(MockScenario::Unsupported, kind))
        .collect();
    let gpu = &states[4..10];

    assert_eq!(gpu[0], MockReadingState::Available);
    assert_eq!(gpu[1], MockReadingState::UnsupportedDevice);
    assert_eq!(gpu[2], MockReadingState::Available);
    assert_eq!(gpu[3], MockReadingState::UnsupportedApp);
    assert_eq!(gpu[4], MockReadingState::UnsupportedDevice);
    assert_eq!(gpu[5], MockReadingState::Available);
    assert!(states[..4]
        .iter()
        .chain(states[10..].iter())
        .all(|state| *state == MockReadingState::Available));
}

#[test]
fn waiting_scenario_marks_every_reading_waiting() {
    assert!(KINDS
        .iter()
        .all(|kind| reading_state(MockScenario::Waiting, kind) == MockReadingState::Waiting));
}

#[test]
fn error_scenario_fails_only_selected_readings() {
    for (index, kind) in KINDS.iter().enumerate() {
        let state = reading_state(MockScenario::Error, kind);
        if index == 1 || index == 8 {
            assert_eq!(state, MockReadingState::Error);
        } else {
            assert_eq!(state, MockReadingState::Available);
        }
    }
    assert_eq!(error_message("cpu_temperature"), "온도 센서 응답이 없습니다.");
    assert_eq!(error_message("gpu_fan"), "팬 속도를 읽지 못했습니다.");
}

#[test]
fn normal_and_threshold_scenarios_keep_every_reading_available() {
    for scenario in [MockScenario::Normal, MockScenario::Threshold] {
        assert!(KINDS
            .iter()
            .all(|kind| reading_state(scenario, kind) == MockReadingState::Available));
    }
    assert_eq!(MockScenario::default(), MockScenario::Normal);
}

#[test]
fn mock_wave_repeats_every_five_samples() {
    let mut collector = MockCollector::new();
    let waves: Vec<u64> = (0..7).map(|_| collector.next_wave()).collect();

    assert_eq!(waves, vec![0, 1, 2, 3, 4, 0, 1]);
    assert_eq!(collector.sample_index(), 7);
}

#[test]
fn new_native_collector_has_no_previous_sample() {
    let collector = WindowsCollector::new();

    assert!(collector.previous_cpu_times.is_none());
    assert_eq!(collector.mock.sample_index(), 0);
}

#[test]
fn cpu_usage_counts_busy_ticks_between_samples() {
    let previous = CpuTimes {
        idle: 100,
        kernel: 300,
        user: 100,
    };
    let current = CpuTimes {
        idle: 160,
        kernel: 400,
        user: 200,
    };

    assert_eq!(cpu_time_deltas(previous, current), Some((140, 200)));
    assert_eq!(cpu_time_deltas(current, current), None);
    assert_eq!(cpu_time_deltas(current, previous), None);
}

#[test]
fn filetime_halves_form_one_tick_count() {
    assert_eq!(filetime_ticks(1, 2), (1u64 << 32) | 2);
    assert_eq!(filetime_ticks(0, 0), 0);
    assert_eq!(filetime_ticks(u32::MAX, u32::MAX), u64::MAX);
}

#[test]
fn wide_strings_are_zero_terminated_utf16() {
    assert_eq!(to_wide("~MHz"), vec![0x7e, 0x4d, 0x48, 0x7a, 0]);
    assert_eq!(to_wide(""), vec![0]);
    let expected: Vec<u16> = "센서😀".encode_utf16().chain(Some(0)).collect();
    assert_eq!(to_wide("센서😀"), expected);
}

#[test]
fn empty_collection_errors_get_a_general_message() {
    assert_eq!(
        non_empty_or_default(String::new()),
        "Windows 센서 데이터를 읽지 못했습니다."
    );
    assert_eq!(non_empty_or_default("boom".into()), "boom");
}

#[test]
fn cpu_temperature_sensors_are_recognised_by_type_and_identifier() {
    assert!(cpu_temperature_sensor("Temperature", "/amdcpu/0/temperature/2"));
    assert!(cpu_temperature_sensor("temperature", "/IntelCPU/0/temperature/0"));
    assert!(cpu_temperature_sensor("Temperature", "/cpu/0/temp/0"));
    assert!(!cpu_temperature_sensor("Temperature", "/gpu-nvidia/0/temperature/0"));
    assert!(!cpu_temperature_sensor("Load", "/amdcpu/0/load/0"));
}

#[test]
fn demonstration_devices_list_their_readings_in_order() {
    let devices = pc_health::sensor::mock::mock_devices();
    let kinds: Vec<Vec<&str>> = devices
        .iter()
        .map(|device| device.slots.iter().map(|slot| slot.kind).collect())
        .collect();
    assert_eq!(
        kinds,
        vec![
            vec!["cpu_usage", "cpu_temperature", "cpu_clock", "cpu_power"],
            vec!["gpu_usage", "gpu_temperature", "gpu_clock", "gpu_power", "gpu_fan", "gpu_vram"],
            vec!["memory_usage", "memory_used"],
        ]
    );
    assert_eq!(devices[0].kind, pc_health::sensor::domain::DeviceKind::Cpu);
    assert_eq!(devices[1].name, "Mock NVIDIA GeForce RTX 4070");
    assert_eq!(devices[2].slots[1].label, "사용 중");
    assert_eq!(devices[1].slots[5].unit, "GB");
}

#[test]
fn native_samples_need_every_reading_and_a_name() {
    assert_eq!(
        required_telemetry(Some("  AMD Ryzen  "), true, true, true, true),
        Ok("AMD Ryzen".to_string())
    );
    assert_eq!(
        required_telemetry(None, true, true, true, true),
        Err("CPU 이름을 읽지 못했습니다.".to_string())
    );
    assert_eq!(
        required_telemetry(Some("   "), true, true, true, true),
        Err("CPU 이름을 읽지 못했습니다.".to_string())
    );
    assert_eq!(
        required_telemetry(Some("cpu"), false, false, true, true),
        Err("CPU 사용률을 읽지 못했습니다.".to_string())
    );
    assert_eq!(
        required_telemetry(Some("cpu"), true, false, true, true),
        Err("CPU 클럭을 읽지 못했습니다.".to_string())
    );
    assert_eq!(
        required_telemetry(Some("cpu"), true, true, false, false),
        Err("전체 메모리를 읽지 못했습니다.".to_string())
    );
    assert_eq!(
        required_telemetry(Some("cpu"), true, true, true, false),
        Err("사용 가능 메모리를 읽지 못했습니다.".to_string())
    );
}

#[test]
fn every_scenario_keeps_device_and_reading_order_stable() {
    for scenario in [
        MockScenario::Normal,
        MockScenario::Threshold,
        MockScenario::Unsupported,
        MockScenario::Waiting,
        MockScenario::Error,
    ] {
        let devices = pc_health::sensor::mock::mock_devices();
        assert_eq!(devices.len(), 3);
        assert_eq!(devices[0].kind, pc_health::sensor::domain::DeviceKind::Cpu);
        assert_eq!(devices[1].kind, pc_health::sensor::domain::DeviceKind::Gpu);
        assert_eq!(devices[2].kind, pc_health::sensor::domain::DeviceKind::Memory);
        assert_eq!(devices[0].slots.len(), 4);
        assert_eq!(devices[1].slots.len(), 6);
        assert_eq!(devices[2].slots.len(), 2);

        // Every reading has a state in every scenario; the order is the layout's.
        let kinds: Vec<&str> = devices
            .iter()
            .flat_map(|device| device.slots.iter())
            .map(|slot| {
                let _ = reading_state(scenario, slot.kind);
                slot.kind
            })
            .collect();
        assert_eq!(
            kinds,
            [
                "cpu_usage",
                "cpu_temperature",
                "cpu_clock",
                "cpu_power",
                "gpu_usage",
                "gpu_temperature",
                "gpu_clock",
                "gpu_power",
                "gpu_fan",
                "gpu_vram",
                "memory_usage",
                "memory_used",
            ]
        );
    }
}

#[test]
fn processor_names_lose_unicode_white_space_at_both_ends() {
    assert_eq!(
        required_telemetry(Some("\u{3000}\tRyzen 7\u{85}\u{a0}"), true, true, true, true),
        Ok("Ryzen 7".to_string())
    );
}
