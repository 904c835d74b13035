use pc_health::network::domain::ProbeStatus;
use pc_health::network::windows::{
    map_dns_error, map_http_response, map_icmp_error, map_route, native_error, RawAdapter,
    RawRoute,
};

fn raw_ethernet_adapter(index: u32) -> RawAdapter {
    RawAdapter {
        name: "ethernet".into(),
        friendly_name: "Ethernet".into(),
        interface_index: index,
        if_type: 6,
        operational_status: "up".into(),
        mac_address: Some("00:11:22:33:44:55".into()),
        ipv4_addresses: vec!["192.168.0.2".into()],
    }
}

#[test]
fn joins_route_with_adapter_and_interface_metric() {
    let mapped = map_route(
        RawRoute {
            interface_index: 7,
            gateway: "192.168.0.1".into(),
            route_metric: 5,
            interface_metric: 20,
        },
        &[raw_ethernet_adapter(7)],
    );

    assert_eq!(mapped.combined_metric, 25);
    assert!(mapped.adapter_is_ethernet);
    assert!(mapped.adapter_is_up);
}

#[test]
fn keeps_unknown_adapter_route_without_claiming_ethernet() {
    let mapped = map_route(
        RawRoute {
            interface_index: 9,
            gateway: "10.0.0.1".into(),
            route_metric: 3,
            interface_metric: 4,
        },
        &[],
    );

    assert_eq!(mapped.combined_metric, 7);
    assert!(!mapped.adapter_is_ethernet);
    assert!(!mapped.adapter_is_up);
}

#[test]
fn google_204_is_success() {
    let check = map_http_response(
        "https://connectivitycheck.gstatic.com/generate_204",
        204,
        &[],
        12,
    );

    assert_eq!(check.status, ProbeStatus::Success);
    assert_eq!(check.status_code, Some(204));
    assert_eq!(check.body_matches, Some(true));
}

#[test]
fn microsoft_body_mismatch_is_an_error() {
    let check = map_http_response(
        "http://www.msftconnecttest.com/connecttest.txt",
        200,
        b"unexpected",
        18,
    );

    assert_eq!(check.status, ProbeStatus::Error);
    assert_eq!(check.body_matches, Some(false));
    assert_eq!(check.error.unwrap().code, "unexpected_response");
}

#[test]
fn icmp_timeout_keeps_native_error_code() {
    let check = map_icmp_error(11010, 1500);

    assert_eq!(check.status, ProbeStatus::Timeout);
    assert_eq!(check.error.unwrap().native_code, Some(11010));
}

#[test]
fn dns_timeout_is_not_reported_as_success() {
    let check = map_dns_error("www.msftconnecttest.com", 10060, 3000);

    assert_eq!(check.status, ProbeStatus::Timeout);
    assert!(check.addresses.is_empty());
}

#[test]
fn microsoft_expected_body_is_success() {
    let check = map_http_response(
        "http://www.msftconnecttest.com/connecttest.txt",
        200,
        b"Microsoft Connect Test",
        9,
    );

    assert_eq!(check.status, ProbeStatus::Success);
    assert!(check.error.is_none());
}

#[test]
fn other_urls_and_wrong_status_codes_are_errors() {
    assert_eq!(
        map_http_response("https://example.com/", 204, &[], 1).status,
        ProbeStatus::Error
    );
    assert_eq!(
        map_http_response(
            "https://connectivitycheck.gstatic.com/generate_204",
            200,
            &[],
            1
        )
        .status,
        ProbeStatus::Error
    );
}

#[test]
fn other_native_errors_are_failures_with_their_code_in_the_message() {
    let gateway = map_icmp_error(11003, 20);
    assert_eq!(gateway.status, ProbeStatus::Error);
    let error = gateway.error.unwrap();
    assert_eq!(error.code, "icmp_failed");
    assert_eq!(error.message, "Windows ICMP API returned error 11003");

    let dns = map_dns_error("connectivitycheck.gstatic.com", 11001, 5);
    assert_eq!(dns.status, ProbeStatus::Error);
    let error = dns.error.unwrap();
    assert_eq!(error.code, "dns_failed");
    assert_eq!(error.message, "Windows name resolution returned error 11001");
    assert_eq!(error.native_code, Some(11001));
}

#[test]
fn native_errors_name_the_api_code() {
    let error = native_error("adapters", "adapter_read_failed", 87);
    assert_eq!(error.stage, "adapters");
    assert_eq!(error.code, "adapter_read_failed");
    assert_eq!(error.message, "Windows network API returned error 87");
    assert_eq!(error.native_code, Some(87));
}

#[test]
fn combined_metric_saturates() {
    let mapped = map_route(
        RawRoute {
            interface_index: 1,
            gateway: "10.0.0.1".into(),
            route_metric: u32::MAX,
            interface_metric: 4,
        },
        &[],
    );
    assert_eq!(mapped.combined_metric, u32::MAX);
}

use pc_health::network::windows::{
    checked_http_response, default_route, format_mac, gateway_without_route, http_body_read_failed,
    http_request_failed, invalid_gateway_address, operational_status, resolved_dns,
};

#[test]
fn hardware_addresses_are_upper_case_hex_pairs() {
    assert_eq!(
        format_mac(&[0x00, 0x11, 0xaa, 0x3f, 0x44, 0x5b]).as_deref(),
        Some("00:11:AA:3F:44:5B")
    );
    assert_eq!(format_mac(&[0xff]).as_deref(), Some("FF"));
    assert_eq!(format_mac(&[]), None);
}

#[test]
fn adapter_states_other_than_up_keep_their_number() {
    assert_eq!(operational_status(true, 1), "up");
    assert_eq!(operational_status(false, 2), "status_2");
    assert_eq!(operational_status(false, -7), "status_-7");
    assert_eq!(operational_status(false, i32::MIN), "status_-2147483648");
}

#[test]
fn only_routes_with_an_empty_prefix_and_a_gateway_are_default_routes() {
    assert!(default_route(0, [192, 168, 0, 1]));
    assert!(!default_route(0, [0, 0, 0, 0]));
    assert!(!default_route(24, [192, 168, 0, 1]));
}

#[test]
fn gateway_checks_without_route_or_address_explain_why() {
    let check = gateway_without_route();
    assert_eq!(check.status, ProbeStatus::NotRun);
    assert_eq!(check.error.unwrap().code, "no_default_route");

    let check = invalid_gateway_address("invalid IP address syntax".into(), 3);
    assert_eq!(check.status, ProbeStatus::Error);
    assert_eq!(check.duration_ms, 3);
    let error = check.error.unwrap();
    assert_eq!(error.code, "invalid_gateway_address");
    assert_eq!(error.message, "invalid IP address syntax");
}

#[test]
fn resolved_addresses_are_sorted_and_unique() {
    let check = resolved_dns(
        "www.msftconnecttest.com",
        vec![
            "23.1.2.3".into(),
            "2600::1".into(),
            "13.107.4.52".into(),
            "23.1.2.3".into(),
        ],
        14,
    );

    assert_eq!(check.status, ProbeStatus::Success);
    assert_eq!(check.addresses, vec!["13.107.4.52", "23.1.2.3", "2600::1"]);
    assert!(check.error.is_none());
}

#[test]
fn oversized_bodies_are_refused_before_judging_the_answer() {
    let body = vec![b'x'; 4097];
    let check = checked_http_response("http://www.msftconnecttest.com/connecttest.txt", 200, &body, 4);
    assert_eq!(check.status, ProbeStatus::Error);
    assert_eq!(check.body_matches, None);
    assert_eq!(check.error.unwrap().code, "body_too_large");

    let check = checked_http_response(
        "http://www.msftconnecttest.com/connecttest.txt",
        200,
        b"Microsoft Connect Test",
        4,
    );
    assert_eq!(check.status, ProbeStatus::Success);
}

#[test]
fn failed_requests_keep_timeouts_apart() {
    let timeout = http_request_failed(
        "https://connectivitycheck.gstatic.com/generate_204",
        true,
        None,
        "operation timed out".into(),
        5000,
    );
    assert_eq!(timeout.status, ProbeStatus::Timeout);
    assert_eq!(timeout.error.unwrap().code, "http_timeout");

    let refused = http_request_failed(
        "https://connectivitycheck.gstatic.com/generate_204",
        false,
        Some(503),
        "connection refused".into(),
        12,
    );
    assert_eq!(refused.status, ProbeStatus::Error);
    assert_eq!(refused.status_code, Some(503));
    assert_eq!(refused.error.unwrap().code, "http_request_failed");

    let unread = http_body_read_failed("http://example.test/", 200, "reset".into(), 9);
    assert_eq!(unread.status_code, Some(200));
    assert_eq!(unread.error.unwrap().code, "body_read_failed");
}
