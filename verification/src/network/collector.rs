use vstd::prelude::*;
use super::domain::{AdapterSnapshot, DnsCheck, GatewayCheck, HttpCheck, ProbeError, RouteSnapshot};

verus! {

/// Host name whose resolution stands for "Microsoft DNS works".
pub const MICROSOFT_HOSTNAME: &'static str = "www.msftconnecttest.com";

/// Host name whose resolution stands for "Google DNS works".
pub const GOOGLE_HOSTNAME: &'static str = "connectivitycheck.gstatic.com";

/// Microsoft's plain-HTTP connectivity endpoint.
pub const MICROSOFT_URL: &'static str = "http://www.msftconnecttest.com/connecttest.txt";

/// Google's connectivity endpoint.
pub const GOOGLE_URL: &'static str = "https://connectivitycheck.gstatic.com/generate_204";

/// The route a gateway check was handed, as a value.
pub open spec fn route_value(route: Option<&RouteSnapshot>) -> Option<RouteSnapshot> {
    match route {
        Some(r) => Some(*r),
        None => None,
    }
}

/// The platform probes that a network collector performs. Implementations
/// talk to the operating system or the network, so what they answer is not
/// fixed; each answer is described by a predicate of the implementation
/// (the answers it may give to that request), which the probe rounds carry
/// into their own contracts. An implementation that does not describe its
/// answers keeps the default predicates, which admit every answer. An HTTP
/// check names the endpoint it was asked for.
pub trait NetworkCollector: Send + Sync {
    /// `name` is this collector's name.
    open spec fn gives_name(&self, name: Seq<char>) -> bool {
        true
    }

    /// `inventory` is an answer this collector may give to an inventory
    /// request.
    open spec fn gives_inventory(&self, inventory: NetworkInventory) -> bool {
        true
    }

    /// `check` is an answer this collector may give to a gateway check
    /// handed `route`.
    open spec fn gives_gateway_check(&self, route: Option<RouteSnapshot>, check: GatewayCheck) -> bool {
        true
    }

    /// `checks` is an answer this collector may give to the DNS checks.
    open spec fn gives_dns_checks(&self, checks: Seq<DnsCheck>) -> bool {
        true
    }

    /// `check` is an answer this collector may give to a check of the HTTP
    /// endpoint `url`.
    open spec fn gives_http_check(&self, url: Seq<char>, check: HttpCheck) -> bool {
        true
    }

    /// `checks` is an answer this collector may give to the HTTP checks.
    open spec fn gives_http_checks(&self, checks: Seq<HttpCheck>) -> bool {
        true
    }

    fn collector_name(&self) -> (r: &'static str)
        ensures
            self.gives_name(r@),
    ;

    fn collect_inventory(&self) -> (r: NetworkInventory)
        ensures
            self.gives_inventory(r),
    ;

    fn check_gateway(&self, route: Option<&RouteSnapshot>) -> (r: GatewayCheck)
        ensures
            self.gives_gateway_check(route_value(route), r),
    ;

    fn check_dns(&self) -> (r: Vec<DnsCheck>)
        ensures
            self.gives_dns_checks(r@),
    ;

    fn check_http_endpoint(&self, url: &str) -> (r: HttpCheck)
        ensures
            r.url@ == url@,
            self.gives_http_check(url@, r),
    ;

    fn check_http(&self) -> (r: Vec<HttpCheck>)
        ensures
            self.gives_http_checks(r@),
    ;
}

/// Adapters and default routes as read from the platform, with the errors
/// met while reading them.
pub struct NetworkInventory {
    pub adapters: Vec<AdapterSnapshot>,
    pub default_routes: Vec<RouteSnapshot>,
    pub errors: Vec<ProbeError>,
}

} // verus!
