use vstd::prelude::*;
use crate::text::owned;
use super::collector::{
    NetworkCollector, NetworkInventory, GOOGLE_HOSTNAME, GOOGLE_URL, MICROSOFT_HOSTNAME,
    MICROSOFT_URL,
};
use super::domain::{
    opt_error_view, DnsCheck, GatewayCheck, HttpCheck, ProbeError, ProbeErrorView, ProbeStatus,
    RouteSnapshot,
};

verus! {

/// The collector used where no native probes exist: every probe reports
/// that the platform is unsupported.
pub struct UnsupportedCollector;

/// The error that every unsupported probe reports, for the given stage.
pub open spec fn unsupported_error(stage: Seq<char>) -> ProbeErrorView {
    ProbeErrorView {
        stage: stage,
        code: "platform_unsupported"@,
        message: "network probes are only available on Windows"@,
        native_code: None,
    }
}

/// A gateway check that reports the platform as unsupported.
pub open spec fn unsupported_gateway(check: GatewayCheck) -> bool {
    &&& check.status == ProbeStatus::Unsupported
    &&& check.duration_ms == 0
    &&& check.reply_address is None
    &&& check.round_trip_ms is None
    &&& opt_error_view(check.error) == Some(unsupported_error("gateway"@))
}

/// A DNS check that reports `hostname` as unsupported.
pub open spec fn unsupported_dns(check: DnsCheck, hostname: Seq<char>) -> bool {
    &&& check.hostname@ == hostname
    &&& check.status == ProbeStatus::Unsupported
    &&& check.duration_ms == 0
    &&& check.addresses@.len() == 0
    &&& opt_error_view(check.error) == Some(unsupported_error("system_name_resolution"@))
}

/// An HTTP check that reports `url` as unsupported.
pub open spec fn unsupported_http(check: HttpCheck, url: Seq<char>) -> bool {
    &&& check.url@ == url
    &&& check.status == ProbeStatus::Unsupported
    &&& check.duration_ms == 0
    &&& check.status_code is None
    &&& check.body_matches is None
    &&& opt_error_view(check.error) == Some(unsupported_error("http"@))
}

impl UnsupportedCollector {
    fn error(stage: &str) -> (r: ProbeError)
        ensures
            r@ == unsupported_error(stage@),
    {
        ProbeError {
            stage: owned(stage),
            code: owned("platform_unsupported"),
            message: owned("network probes are only available on Windows"),
            native_code: None,
        }
    }
}

/// The inventory the portable collector gives: no adapters or routes, and
/// the unsupported error of the inventory stage.
pub open spec fn unsupported_inventory(inventory: NetworkInventory) -> bool {
    &&& inventory.adapters@.len() == 0
    &&& inventory.default_routes@.len() == 0
    &&& inventory.errors@.len() == 1
    &&& inventory.errors@[0]@ == unsupported_error("inventory"@)
}

impl NetworkCollector for UnsupportedCollector {
    open spec fn gives_name(&self, name: Seq<char>) -> bool {
        name == "unsupported"@
    }

    open spec fn gives_inventory(&self, inventory: NetworkInventory) -> bool {
        unsupported_inventory(inventory)
    }

    open spec fn gives_gateway_check(&self, route: Option<RouteSnapshot>, check: GatewayCheck) -> bool {
        unsupported_gateway(check)
    }

    open spec fn gives_dns_checks(&self, checks: Seq<DnsCheck>) -> bool {
        &&& checks.len() == 2
        &&& unsupported_dns(checks[0], MICROSOFT_HOSTNAME@)
        &&& unsupported_dns(checks[1], GOOGLE_HOSTNAME@)
    }

    open spec fn gives_http_check(&self, url: Seq<char>, check: HttpCheck) -> bool {
        unsupported_http(check, url)
    }

    open spec fn gives_http_checks(&self, checks: Seq<HttpCheck>) -> bool {
        &&& checks.len() == 2
        &&& unsupported_http(checks[0], MICROSOFT_URL@)
        &&& unsupported_http(checks[1], GOOGLE_URL@)
    }

    fn collector_name(&self) -> (r: &'static str)
        ensures
            r@ == "unsupported"@,
    {
        "unsupported"
    }

    fn collect_inventory(&self) -> (r: NetworkInventory)
        ensures
            r.adapters@.len() == 0,
            r.default_routes@.len() == 0,
            r.errors@.len() == 1,
            r.errors@[0]@ == unsupported_error("inventory"@),
    {
        let mut errors = Vec::new();
        errors.push(Self::error("inventory"));
        NetworkInventory { adapters: Vec::new(), default_routes: Vec::new(), errors }
    }

    fn check_gateway(&self, route: Option<&RouteSnapshot>) -> (r: GatewayCheck)
        ensures
            unsupported_gateway(r),
    {
        GatewayCheck {
            status: ProbeStatus::Unsupported,
            duration_ms: 0,
            reply_address: None,
            round_trip_ms: None,
            error: Some(Self::error("gateway")),
        }
    }

    fn check_dns(&self) -> (r: Vec<DnsCheck>)
        ensures
            r@.len() == 2,
            unsupported_dns(r@[0], MICROSOFT_HOSTNAME@),
            unsupported_dns(r@[1], GOOGLE_HOSTNAME@),
    {
        let mut checks = Vec::new();
        checks.push(unsupported_dns_check(MICROSOFT_HOSTNAME));
        checks.push(unsupported_dns_check(GOOGLE_HOSTNAME));
        checks
    }

    fn check_http_endpoint(&self, url: &str) -> (r: HttpCheck)
        ensures
            unsupported_http(r, url@),
    {
        unsupported_http_check(url)
    }

    fn check_http(&self) -> (r: Vec<HttpCheck>)
        ensures
            r@.len() == 2,
            unsupported_http(r@[0], MICROSOFT_URL@),
            unsupported_http(r@[1], GOOGLE_URL@),
    {
        let mut checks = Vec::new();
        checks.push(unsupported_http_check(MICROSOFT_URL));
        checks.push(unsupported_http_check(GOOGLE_URL));
        checks
    }
}

fn unsupported_dns_check(hostname: &str) -> (r: DnsCheck)
    ensures
        unsupported_dns(r, hostname@),
{
    DnsCheck {
        hostname: owned(hostname),
        status: ProbeStatus::Unsupported,
        duration_ms: 0,
        addresses: Vec::new(),
        error: Some(UnsupportedCollector::error("system_name_resolution")),
    }
}

fn unsupported_http_check(url: &str) -> (r: HttpCheck)
    ensures
        unsupported_http(r, url@),
{
    HttpCheck {
        url: owned(url),
        status: ProbeStatus::Unsupported,
        duration_ms: 0,
        status_code: None,
        body_matches: None,
        error: Some(UnsupportedCollector::error("http")),
    }
}

} // verus!
