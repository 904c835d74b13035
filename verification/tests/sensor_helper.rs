use pc_health::sensor::helper::{
    cpu_hardware, retry_once, sample_request, shutdown_request, temperature_priority,
    temperature_sensor,
};

#[test]
fn serializes_sample_requests_as_one_line_ndjson() {
    let request = sample_request(7).unwrap();

    assert_eq!(request, "{\"id\":7,\"command\":\"sample\"}\n");
}

#[test]
fn retry_once_restarts_after_one_failure() {
    let mut attempts = 0;
    let mut restarts = 0;

    let result = retry_once(
        &mut (),
        |_| {
            attempts += 1;
            if attempts == 1 {
                Err("first".to_string())
            } else {
                Ok(42)
            }
        },
        |_| {
            restarts += 1;
            Ok(())
        },
    );

    assert_eq!(result, Ok(42));
    assert_eq!(attempts, 2);
    assert_eq!(restarts, 1);
}

#[test]
fn retry_once_never_attempts_a_third_request() {
    let mut attempts = 0;

    let result: Result<(), String> = retry_once(
        &mut (),
        |_| {
            attempts += 1;
            Err(format!("failure {attempts}"))
        },
        |_| Ok(()),
    );

    assert_eq!(attempts, 2);
    assert_eq!(result.unwrap_err(), "failure 2");
}

#[test]
fn retry_once_does_not_restart_after_success() {
    let mut restarts = 0;

    let result = retry_once(
        &mut 5,
        |state: &mut i32| Ok(*state * 2),
        |_| {
            restarts += 1;
            Ok(())
        },
    );

    assert_eq!(result, Ok(10));
    assert_eq!(restarts, 0);
}

#[test]
fn retry_once_gives_up_when_the_restart_fails() {
    let mut attempts = 0;

    let result: Result<u8, String> = retry_once(
        &mut (),
        |_| {
            attempts += 1;
            Err("attempt failed".to_string())
        },
        |_| Err("restart failed".to_string()),
    );

    assert_eq!(attempts, 1);
    assert_eq!(result, Err("restart failed".to_string()));
}

#[test]
fn retry_once_passes_the_state_to_every_call() {
    let mut state = 0u32;

    let result = retry_once(
        &mut state,
        |count: &mut u32| {
            *count += 1;
            if *count < 3 {
                Err("not yet".to_string())
            } else {
                Ok(*count)
            }
        },
        |count: &mut u32| {
            *count += 1;
            Ok(())
        },
    );

    assert_eq!(result, Ok(3));
    assert_eq!(state, 3);
}

#[test]
fn request_lines_carry_the_id_in_decimal() {
    assert_eq!(sample_request(0).unwrap(), "{\"id\":0,\"command\":\"sample\"}\n");
    assert_eq!(
        sample_request(u64::MAX).unwrap(),
        "{\"id\":18446744073709551615,\"command\":\"sample\"}\n"
    );
    assert_eq!(
        shutdown_request(12).unwrap(),
        "{\"id\":12,\"command\":\"shutdown\"}\n"
    );
}

#[test]
fn package_temperatures_are_preferred() {
    assert_eq!(temperature_priority("CPU Package"), 2);
    assert_eq!(temperature_priority("Core (Tctl/Tdie)"), 2);
    assert_eq!(temperature_priority("tdie"), 2);
    assert_eq!(temperature_priority("Core #1"), 1);
    assert_eq!(temperature_priority(""), 1);
}

#[test]
fn hardware_and_sensor_types_ignore_ascii_case() {
    assert!(cpu_hardware("Cpu"));
    assert!(cpu_hardware("CPU"));
    assert!(!cpu_hardware("GpuNvidia"));
    assert!(temperature_sensor("Temperature"));
    assert!(!temperature_sensor("Load"));
}

use pc_health::sensor::helper::check_response;

#[test]
fn rejects_mismatched_request_ids() {
    let error = check_response(Some(7), 8, true, &vec![]).unwrap_err();

    assert!(error.contains("request id"));
    assert_eq!(
        error,
        "sensor helper request id가 일치하지 않습니다: expected 8, got Some(7)"
    );
    assert_eq!(
        check_response(None, 8, true, &vec![]).unwrap_err(),
        "sensor helper request id가 일치하지 않습니다: expected 8, got None"
    );
}

#[test]
fn failed_responses_report_the_helper_errors() {
    assert_eq!(
        check_response(Some(3), 3, false, &vec![]).unwrap_err(),
        "sensor helper가 실패 응답을 반환했습니다."
    );
    assert_eq!(
        check_response(
            Some(3),
            3,
            false,
            &vec!["no sensors".to_string(), "driver busy".to_string()]
        )
        .unwrap_err(),
        "no sensors; driver busy"
    );
    assert_eq!(check_response(Some(3), 3, true, &vec![]), Ok(()));
}
