use vstd::prelude::*;
use crate::text::{
    decimal_text, decimal_text_u32, joined_text, owned, push_decimal, sorted_unique,
    strictly_sorted, str_eq, texts, with_decimal_u32,
};
use super::collector::{GOOGLE_URL, MICROSOFT_URL};
use super::domain::{
    opt_error_view, AdapterSnapshot, DnsCheck, GatewayCheck, HttpCheck, ProbeError,
    ProbeErrorView, ProbeStatus, RouteSnapshot,
};

verus! {

/// Interface type of an Ethernet adapter.
pub const ETHERNET_IF_TYPE: u32 = 6;

/// Windows ICMP status for a timed-out echo request.
pub const IP_REQ_TIMED_OUT: u32 = 11010;

/// Winsock error for a timed-out name resolution.
pub const WSAETIMEDOUT: u32 = 10060;

/// An adapter as the platform reports it.
#[derive(Clone, Debug)]
pub struct RawAdapter {
    pub name: String,
    pub friendly_name: String,
    pub interface_index: u32,
    pub if_type: u32,
    pub operational_status: String,
    pub mac_address: Option<String>,
    pub ipv4_addresses: Vec<String>,
}

impl RawAdapter {
    /// The adapter as it appears in a probe snapshot; every field carries over.
    pub fn into_snapshot(self) -> (r: AdapterSnapshot)
        ensures
            r.name == self.name,
            r.friendly_name == self.friendly_name,
            r.interface_index == self.interface_index,
            r.if_type == self.if_type,
            r.operational_status == self.operational_status,
            r.mac_address == self.mac_address,
            r.ipv4_addresses == self.ipv4_addresses,
    {
        AdapterSnapshot {
            name: self.name,
            friendly_name: self.friendly_name,
            interface_index: self.interface_index,
            if_type: self.if_type,
            operational_status: self.operational_status,
            mac_address: self.mac_address,
            ipv4_addresses: self.ipv4_addresses,
        }
    }
}

/// An IPv4 default route as the platform reports it.
#[derive(Clone, Debug)]
pub struct RawRoute {
    pub interface_index: u32,
    pub gateway: String,
    pub route_metric: u32,
    pub interface_metric: u32,
}

/// The first adapter with the given interface index.
pub open spec fn adapter_for(adapters: Seq<RawAdapter>, index: u32) -> Option<RawAdapter>
    decreases adapters.len(),
{
    if adapters.len() == 0 {
        None
    } else if adapters[0].interface_index == index {
        Some(adapters[0])
    } else {
        adapter_for(adapters.drop_first(), index)
    }
}

/// Sum of two metrics, capped at the largest metric.
pub open spec fn capped_sum(a: u32, b: u32) -> u32 {
    if a + b > u32::MAX { u32::MAX } else { (a + b) as u32 }
}

/// Joins a default route with the adapter it leaves through: the combined
/// metric saturates, and a route whose adapter is not in the list is
/// neither wired nor up.
pub fn map_route(route: RawRoute, adapters: &[RawAdapter]) -> (r: RouteSnapshot)
    ensures
        r.interface_index == route.interface_index,
        r.gateway == route.gateway,
        r.route_metric == route.route_metric,
        r.interface_metric == route.interface_metric,
        r.combined_metric == capped_sum(route.route_metric, route.interface_metric),
        r.adapter_is_ethernet == (adapter_for(adapters@, route.interface_index) matches Some(a)
            && a.if_type == ETHERNET_IF_TYPE),
        r.adapter_is_up == (adapter_for(adapters@, route.interface_index) matches Some(a)
            && a.operational_status@ == "up"@),
{
    let mut found: Option<usize> = None;
    let mut i: usize = 0;
    assert(adapters@.skip(0) =~= adapters@);
    while i < adapters.len()
        invariant
            i <= adapters@.len(),
            found is None ==> adapter_for(adapters@, route.interface_index) == adapter_for(
                adapters@.skip(i as int),
                route.interface_index,
            ),
            found matches Some(k) ==> k < adapters@.len() && adapter_for(
                adapters@,
                route.interface_index,
            ) == Some(adapters@[k as int]),
        decreases adapters@.len() - i,
    {
        if found.is_none() {
            assert(adapters@.skip(i as int).drop_first() =~= adapters@.skip(i + 1));
            if adapters[i].interface_index == route.interface_index {
                found = Some(i);
            }
        }
        i += 1;
    }
    let (is_ethernet, is_up) = match found {
        Some(k) => (
            adapters[k].if_type == ETHERNET_IF_TYPE,
            str_eq(adapters[k].operational_status.as_str(), "up"),
        ),
        None => (false, false),
    };
    RouteSnapshot {
        interface_index: route.interface_index,
        gateway: route.gateway,
        route_metric: route.route_metric,
        interface_metric: route.interface_metric,
        combined_metric: route.route_metric.saturating_add(route.interface_metric),
        adapter_is_ethernet: is_ethernet,
        adapter_is_up: is_up,
    }
}

/// Byte values of an ASCII text.
pub open spec fn ascii_bytes(s: Seq<char>) -> Seq<u8> {
    s.map_values(|c: char| c as u8)
}

/// Whether an endpoint answered the way its operator documents: Google with
/// an empty 204, Microsoft with a 200 whose body is exactly
/// "Microsoft Connect Test"; any other URL never matches.
pub open spec fn endpoint_body_matches(url: Seq<char>, status_code: u16, body: Seq<u8>) -> bool {
    if url == GOOGLE_URL@ {
        status_code == 204 && body.len() == 0
    } else if url == MICROSOFT_URL@ {
        status_code == 200 && body == ascii_bytes("Microsoft Connect Test"@)
    } else {
        false
    }
}

/// The error reported when an endpoint answers unexpectedly.
pub open spec fn unexpected_response_error() -> ProbeErrorView {
    ProbeErrorView {
        stage: "http"@,
        code: "unexpected_response"@,
        message: "connectivity endpoint returned an unexpected response"@,
        native_code: None,
    }
}

fn is_microsoft_body(body: &[u8]) -> (r: bool)
    ensures
        r == (body@ == ascii_bytes("Microsoft Connect Test"@)),
{
    let expected = "Microsoft Connect Test".as_bytes();
    proof {
        reveal_strlit("Microsoft Connect Test");
        broadcast use vstd::string::is_ascii_spec_bytes;
        assert(vstd::string::is_ascii("Microsoft Connect Test"));
        assert(expected@ =~= ascii_bytes("Microsoft Connect Test"@));
    }
    if body.len() != expected.len() {
        return false;
    }
    let mut i: usize = 0;
    while i < body.len()
        invariant
            i <= body@.len(),
            body@.len() == expected@.len(),
            expected@ == ascii_bytes("Microsoft Connect Test"@),
            forall|j: int| 0 <= j < i ==> body@[j] == expected@[j],
        decreases body@.len() - i,
    {
        if body[i] != expected[i] {
            return false;
        }
        i += 1;
    }
    assert(body@ =~= expected@);
    true
}

/// Classifies an HTTP answer from a connectivity endpoint.
pub fn map_http_response(url: &str, status_code: u16, body: &[u8], duration_ms: u64) -> (r:
    HttpCheck)
    ensures
        r.url@ == url@,
        r.status == (if endpoint_body_matches(url@, status_code, body@) {
            ProbeStatus::Success
        } else {
            ProbeStatus::Error
        }),
        r.duration_ms == duration_ms,
        r.status_code == Some(status_code),
        r.body_matches == Some(endpoint_body_matches(url@, status_code, body@)),
        opt_error_view(r.error) == (if endpoint_body_matches(url@, status_code, body@) {
            None
        } else {
            Some(unexpected_response_error())
        }),
{
    let body_matches = if str_eq(url, GOOGLE_URL) {
        status_code == 204 && body.len() == 0
    } else if str_eq(url, MICROSOFT_URL) {
        status_code == 200 && is_microsoft_body(body)
    } else {
        false
    };
    let error = if body_matches {
        None
    } else {
        Some(
            ProbeError {
                stage: owned("http"),
                code: owned("unexpected_response"),
                message: owned("connectivity endpoint returned an unexpected response"),
                native_code: None,
            },
        )
    };
    HttpCheck {
        url: owned(url),
        status: if body_matches {
            ProbeStatus::Success
        } else {
            ProbeStatus::Error
        },
        duration_ms,
        status_code: Some(status_code),
        body_matches: Some(body_matches),
        error,
    }
}

/// Classifies a failed gateway echo: timeouts keep their own status, and
/// the native code is preserved in the error.
pub fn map_icmp_error(native_code: u32, duration_ms: u64) -> (r: GatewayCheck)
    ensures
        r.status == (if native_code == IP_REQ_TIMED_OUT {
            ProbeStatus::Timeout
        } else {
            ProbeStatus::Error
        }),
        r.duration_ms == duration_ms,
        r.reply_address is None,
        r.round_trip_ms is None,
        opt_error_view(r.error) == Some(
            ProbeErrorView {
                stage: "gateway"@,
                code: if native_code == IP_REQ_TIMED_OUT {
                    "icmp_timeout"@
                } else {
                    "icmp_failed"@
                },
                message: "Windows ICMP API returned error "@ + decimal_text_u32(native_code),
                native_code: Some(native_code),
            },
        ),
{
    let timed_out = native_code == IP_REQ_TIMED_OUT;
    GatewayCheck {
        status: if timed_out {
            ProbeStatus::Timeout
        } else {
            ProbeStatus::Error
        },
        duration_ms,
        reply_address: None,
        round_trip_ms: None,
        error: Some(
            ProbeError {
                stage: owned("gateway"),
                code: if timed_out {
                    owned("icmp_timeout")
                } else {
                    owned("icmp_failed")
                },
                message: with_decimal_u32("Windows ICMP API returned error ", native_code),
                native_code: Some(native_code),
            },
        ),
    }
}

/// Classifies a failed name resolution: timeouts keep their own status, no
/// address is reported, and the native code is preserved in the error.
pub fn map_dns_error(hostname: &str, native_code: u32, duration_ms: u64) -> (r: DnsCheck)
    ensures
        r.hostname@ == hostname@,
        r.status == (if native_code == WSAETIMEDOUT {
            ProbeStatus::Timeout
        } else {
            ProbeStatus::Error
        }),
        r.duration_ms == duration_ms,
        r.addresses@.len() == 0,
        opt_error_view(r.error) == Some(
            ProbeErrorView {
                stage: "system_name_resolution"@,
                code: if native_code == WSAETIMEDOUT {
                    "dns_timeout"@
                } else {
                    "dns_failed"@
                },
                message: "Windows name resolution returned error "@ + decimal_text_u32(native_code),
                native_code: Some(native_code),
            },
        ),
{
    let timed_out = native_code == WSAETIMEDOUT;
    DnsCheck {
        hostname: owned(hostname),
        status: if timed_out {
            ProbeStatus::Timeout
        } else {
            ProbeStatus::Error
        },
        duration_ms,
        addresses: Vec::new(),
        error: Some(
            ProbeError {
                stage: owned("system_name_resolution"),
                code: if timed_out {
                    owned("dns_timeout")
                } else {
                    owned("dns_failed")
                },
                message: with_decimal_u32("Windows name resolution returned error ", native_code),
                native_code: Some(native_code),
            },
        ),
    }
}

/// The error for a failed Windows network API call.
pub fn native_error(stage: &str, code: &str, native_code: u32) -> (r: ProbeError)
    ensures
        r@ == (ProbeErrorView {
            stage: stage@,
            code: code@,
            message: "Windows network API returned error "@ + decimal_text_u32(native_code),
            native_code: Some(native_code),
        }),
{
    ProbeError {
        stage: owned(stage),
        code: owned(code),
        message: with_decimal_u32("Windows network API returned error ", native_code),
        native_code: Some(native_code),
    }
}

/// The upper-case hexadecimal digit for `d`.
pub open spec fn hex_digit(d: nat) -> char {
    if d < 10 {
        ((48 + d) as u32) as char
    } else {
        ((55 + d) as u32) as char
    }
}

/// A byte as two upper-case hexadecimal digits.
pub open spec fn byte_hex(b: u8) -> Seq<char> {
    seq![hex_digit((b / 16) as nat), hex_digit((b % 16) as nat)]
}

/// A hardware address in the usual notation: the bytes in hexadecimal,
/// joined by colons; none when there are no bytes.
pub open spec fn mac_text(bytes: Seq<u8>) -> Option<Seq<char>> {
    if bytes.len() == 0 {
        None
    } else {
        Some(joined_text(bytes.map_values(|b: u8| byte_hex(b)), ":"@))
    }
}

/// The notation of a hardware address.
pub fn format_mac(bytes: &[u8]) -> (r: Option<String>)
    ensures
        match r {
            Some(t) => mac_text(bytes@) == Some(t@),
            None => mac_text(bytes@) is None,
        },
{
    if bytes.len() == 0 {
        return None;
    }
    let mut out = String::new();
    let mut i: usize = 0;
    while i < bytes.len()
        invariant
            i <= bytes@.len(),
            out@ == joined_text(bytes@.take(i as int).map_values(|b: u8| byte_hex(b)), ":"@),
        decreases bytes@.len() - i,
    {
        let b = bytes[i];
        let ghost parts = bytes@.take(i + 1).map_values(|b: u8| byte_hex(b));
        assert(parts.drop_last() =~= bytes@.take(i as int).map_values(|b: u8| byte_hex(b)));
        assert(parts.last() == byte_hex(b));
        if i > 0 {
            out.append(":");
        }
        let mut pair = String::new();
        pair.append(
            if b / 16 < 10 {
                ascii_char_text(48 + b / 16)
            } else {
                ascii_char_text(55 + b / 16)
            },
        );
        pair.append(
            if b % 16 < 10 {
                ascii_char_text(48 + b % 16)
            } else {
                ascii_char_text(55 + b % 16)
            },
        );
        let ghost before = out@;
        out.append(pair.as_str());
        proof {
            if i == 0 {
                assert(parts.len() == 1);
                assert(out@ =~= parts[0]);
            } else {
                assert(out@ =~= joined_text(parts.drop_last(), ":"@) + ":"@ + parts.last());
            }
        }
        i += 1;
    }
    assert(bytes@.take(bytes@.len() as int) =~= bytes@);
    Some(out)
}

/// The one-character text of an ASCII code.
fn ascii_char_text(code: u8) -> (r: &'static str)
    requires
        48 <= code < 58 || 65 <= code < 71,
    ensures
        r@ == seq![(code as u32) as char],
{
    proof {
        reveal_strlit("0");
        reveal_strlit("1");
        reveal_strlit("2");
        reveal_strlit("3");
        reveal_strlit("4");
        reveal_strlit("5");
        reveal_strlit("6");
        reveal_strlit("7");
        reveal_strlit("8");
        reveal_strlit("9");
        reveal_strlit("A");
        reveal_strlit("B");
        reveal_strlit("C");
        reveal_strlit("D");
        reveal_strlit("E");
        reveal_strlit("F");
    }
    match code {
        48 => "0",
        49 => "1",
        50 => "2",
        51 => "3",
        52 => "4",
        53 => "5",
        54 => "6",
        55 => "7",
        56 => "8",
        57 => "9",
        65 => "A",
        66 => "B",
        67 => "C",
        68 => "D",
        69 => "E",
        _ => "F",
    }
}

/// Decimal notation of a signed number.
pub open spec fn signed_decimal_text(n: int) -> Seq<char> {
    if n < 0 {
        "-"@ + decimal_text((-n) as nat)
    } else {
        decimal_text(n as nat)
    }
}

/// How an adapter's operational state appears in a snapshot: "up", or the
/// platform's state number.
pub open spec fn operational_status_text(up: bool, code: i32) -> Seq<char> {
    if up {
        "up"@
    } else {
        "status_"@ + signed_decimal_text(code as int)
    }
}

/// The operational state of an adapter in snapshot notation.
pub fn operational_status(up: bool, code: i32) -> (r: String)
    ensures
        r@ == operational_status_text(up, code),
{
    if up {
        return owned("up");
    }
    let mut out = owned("status_");
    if code < 0 {
        out.append("-");
        let magnitude = (0i64 - code as i64) as u64;
        push_decimal(&mut out, magnitude);
    } else {
        push_decimal(&mut out, code as u64);
    }
    proof {
        reveal_strlit("-");
        assert(out@ =~= "status_"@ + signed_decimal_text(code as int));
    }
    out
}

/// A route entry is a usable IPv4 default route: its prefix is empty and it
/// has a gateway.
pub open spec fn is_default_route(prefix_length: u8, gateway: Seq<u8>) -> bool {
    prefix_length == 0 && !(gateway[0] == 0 && gateway[1] == 0 && gateway[2] == 0 && gateway[3]
        == 0)
}

/// Whether a route entry is a usable IPv4 default route.
pub fn default_route(prefix_length: u8, gateway: [u8; 4]) -> (r: bool)
    ensures
        r == is_default_route(prefix_length, gateway@),
{
    prefix_length == 0 && !(gateway[0] == 0 && gateway[1] == 0 && gateway[2] == 0 && gateway[3]
        == 0)
}

/// The gateway check when no default route was selected: it does not run.
pub fn gateway_without_route() -> (r: GatewayCheck)
    ensures
        r.status == ProbeStatus::NotRun,
        r.duration_ms == 0,
        r.reply_address is None,
        r.round_trip_ms is None,
        opt_error_view(r.error) == Some(
            ProbeErrorView {
                stage: "gateway"@,
                code: "no_default_route"@,
                message: "gateway check requires a selected IPv4 default route"@,
                native_code: None,
            },
        ),
{
    GatewayCheck {
        status: ProbeStatus::NotRun,
        duration_ms: 0,
        reply_address: None,
        round_trip_ms: None,
        error: Some(
            ProbeError {
                stage: owned("gateway"),
                code: owned("no_default_route"),
                message: owned("gateway check requires a selected IPv4 default route"),
                native_code: None,
            },
        ),
    }
}

/// The gateway check when the route's gateway is not an IPv4 address.
pub fn invalid_gateway_address(message: String, duration_ms: u64) -> (r: GatewayCheck)
    ensures
        r.status == ProbeStatus::Error,
        r.duration_ms == duration_ms,
        r.reply_address is None,
        r.round_trip_ms is None,
        opt_error_view(r.error) == Some(
            ProbeErrorView {
                stage: "gateway"@,
                code: "invalid_gateway_address"@,
                message: message@,
                native_code: None,
            },
        ),
{
    GatewayCheck {
        status: ProbeStatus::Error,
        duration_ms,
        reply_address: None,
        round_trip_ms: None,
        error: Some(
            ProbeError {
                stage: owned("gateway"),
                code: owned("invalid_gateway_address"),
                message,
                native_code: None,
            },
        ),
    }
}

/// A successful resolution: the addresses are reported in order, each once.
pub fn resolved_dns(hostname: &str, addresses: Vec<String>, duration_ms: u64) -> (r: DnsCheck)
    ensures
        r.hostname@ == hostname@,
        r.status == ProbeStatus::Success,
        r.duration_ms == duration_ms,
        strictly_sorted(texts(r.addresses@)),
        forall|t: Seq<char>| texts(r.addresses@).contains(t) <==> texts(addresses@).contains(t),
        r.error is None,
{
    DnsCheck {
        hostname: owned(hostname),
        status: ProbeStatus::Success,
        duration_ms,
        addresses: sorted_unique(addresses),
        error: None,
    }
}

/// An HTTP check judged by the endpoint's expected answer, as
/// `map_http_response` makes it.
pub open spec fn judged_http_response(
    r: HttpCheck,
    url: Seq<char>,
    status_code: u16,
    body: Seq<u8>,
    duration_ms: u64,
) -> bool {
    &&& r.url@ == url
    &&& r.status == (if endpoint_body_matches(url, status_code, body) {
        ProbeStatus::Success
    } else {
        ProbeStatus::Error
    })
    &&& r.duration_ms == duration_ms
    &&& r.status_code == Some(status_code)
    &&& r.body_matches == Some(endpoint_body_matches(url, status_code, body))
    &&& opt_error_view(r.error) == (if endpoint_body_matches(url, status_code, body) {
        None
    } else {
        Some(unexpected_response_error())
    })
}

/// The most body that a connectivity check reads.
pub const MAX_BODY_BYTES: usize = 4096;

/// Classifies an HTTP answer whose body was read up to one byte past the
/// limit: a longer body is an error, any other is judged by its content.
pub fn checked_http_response(url: &str, status_code: u16, body: &[u8], duration_ms: u64) -> (r:
    HttpCheck)
    ensures
        body@.len() > MAX_BODY_BYTES ==> {
            &&& r.url@ == url@
            &&& r.status == ProbeStatus::Error
            &&& r.duration_ms == duration_ms
            &&& r.status_code == Some(status_code)
            &&& r.body_matches is None
            &&& opt_error_view(r.error) == Some(
                ProbeErrorView {
                    stage: "http"@,
                    code: "body_too_large"@,
                    message: "connectivity endpoint body exceeded 4096 bytes"@,
                    native_code: None,
                },
            )
        },
        body@.len() <= MAX_BODY_BYTES ==> judged_http_response(r, url@, status_code, body@, duration_ms),
{
    if body.len() > MAX_BODY_BYTES {
        return HttpCheck {
            url: owned(url),
            status: ProbeStatus::Error,
            duration_ms,
            status_code: Some(status_code),
            body_matches: None,
            error: Some(
                ProbeError {
                    stage: owned("http"),
                    code: owned("body_too_large"),
                    message: owned("connectivity endpoint body exceeded 4096 bytes"),
                    native_code: None,
                },
            ),
        };
    }
    map_http_response(url, status_code, body, duration_ms)
}

} // verus!

verus! {

/// The HTTP check when the body could not be read.
pub fn http_body_read_failed(url: &str, status_code: u16, message: String, duration_ms: u64) -> (r:
    HttpCheck)
    ensures
        r.url@ == url@,
        r.status == ProbeStatus::Error,
        r.duration_ms == duration_ms,
        r.status_code == Some(status_code),
        r.body_matches is None,
        opt_error_view(r.error) == Some(
            ProbeErrorView {
                stage: "http"@,
                code: "body_read_failed"@,
                message: message@,
                native_code: None,
            },
        ),
{
    HttpCheck {
        url: owned(url),
        status: ProbeStatus::Error,
        duration_ms,
        status_code: Some(status_code),
        body_matches: None,
        error: Some(
            ProbeError {
                stage: owned("http"),
                code: owned("body_read_failed"),
                message,
                native_code: None,
            },
        ),
    }
}

/// The HTTP check when the request itself failed: a timeout keeps its own
/// status, and any status code the failure carried is kept.
pub fn http_request_failed(
    url: &str,
    timed_out: bool,
    status_code: Option<u16>,
    message: String,
    duration_ms: u64,
) -> (r: HttpCheck)
    ensures
        r.url@ == url@,
        r.status == (if timed_out {
            ProbeStatus::Timeout
        } else {
            ProbeStatus::Error
        }),
        r.duration_ms == duration_ms,
        r.status_code == status_code,
        r.body_matches is None,
        opt_error_view(r.error) == Some(
            ProbeErrorView {
                stage: "http"@,
                code: if timed_out {
                    "http_timeout"@
                } else {
                    "http_request_failed"@
                },
                message: message@,
                native_code: None,
            },
        ),
{
    HttpCheck {
        url: owned(url),
        status: if timed_out {
            ProbeStatus::Timeout
        } else {
            ProbeStatus::Error
        },
        duration_ms,
        status_code,
        body_matches: None,
        error: Some(
            ProbeError {
                stage: owned("http"),
                code: if timed_out {
                    owned("http_timeout")
                } else {
                    owned("http_request_failed")
                },
                message,
                native_code: None,
            },
        ),
    }
}

} // verus!
