//! The endpoint resolver: a static mapping from logical operation, target
//! host and optional tenant identifier to a fully qualified URL. Every URL
//! has the shape `https://{host}:443{prefix}` and, for tenant-scoped
//! operations, continues with `{tenant}{tail}`.

use vstd::prelude::*;
use vstd::string::StringExecFns;

verus! {

/// The logical operations the endpoint resolver knows, one per REST
/// collection of the service, plus the token-generating authentication
/// exchange.
#[derive(Clone, Copy, Debug, PartialEq, Eq, Structural)]
pub enum FmcApi {
    Devices,
    PolicyAssignments,
    DeviceHAPairs,
    Integration,
    DeviceGroups,
    TaskStatuses,
    DeviceClusters,
    Object,
    Policy,
    Deployment,
    Updates,
    Audit,
    Info,
    TaxiiConfig,
    Tid,
    HttpBasicAuth,
}

/// Whether the operation's path carries a tenant identifier. Operations
/// without one may be resolved before any token exchange has recorded a
/// tenant.
pub open spec fn requires_tenant(op: FmcApi) -> bool {
    !(op is Updates || op is Info || op is HttpBasicAuth)
}

/// Whether the operation's path carries a tenant identifier, decided at
/// run time.
pub fn requires_tenant_scope(op: FmcApi) -> (r: bool)
    ensures
        r == requires_tenant(op),
{
    match op {
        FmcApi::Updates => false,
        FmcApi::Info => false,
        FmcApi::HttpBasicAuth => false,
        _ => true,
    }
}

/// The fixed path segment that follows the port for each operation.
pub open spec fn op_prefix(op: FmcApi) -> Seq<char> {
    match op {
        FmcApi::Devices => "/api/fmc_config/v1/domain/"@,
        FmcApi::PolicyAssignments => "/api/fmc_config/v1/domain/"@,
        FmcApi::DeviceHAPairs => "/api/fmc_config/v1/domain/"@,
        FmcApi::Integration => "/api/fmc_config/v1/domain/"@,
        FmcApi::DeviceGroups => "/api/fmc_config/v1/domain/"@,
        FmcApi::TaskStatuses => "/api/fmc_config/v1/domain/"@,
        FmcApi::DeviceClusters => "/api/fmc_config/v1/domain/"@,
        FmcApi::Object => "/api/fmc_config/v1/domain/"@,
        FmcApi::Policy => "/api/fmc_config/v1/domain/"@,
        FmcApi::Deployment => "/api/fmc_config/v1/domain/"@,
        FmcApi::Updates => "/api/fmc_config/v1/domain/"@,
        FmcApi::Audit => "/api/fmc_platform/v1/domain/"@,
        FmcApi::Info => "/api/fmc_platform/v1/info"@,
        FmcApi::TaxiiConfig => "/api/fmc_tid/v1/domain/"@,
        FmcApi::Tid => "/api/fmc_tid/v1/domain/"@,
        FmcApi::HttpBasicAuth => "/api/fmc_platform/v1/auth/generatetoken"@,
    }
}

/// The path segment that follows the tenant identifier, for the operations
/// whose path carries one; empty for the rest.
pub open spec fn op_tail(op: FmcApi) -> Seq<char> {
    match op {
        FmcApi::Devices => "/devices/devicerecords"@,
        FmcApi::PolicyAssignments => "/assignments/policyassignments"@,
        FmcApi::DeviceHAPairs => "/devicehapairs/ftddevicehapairs"@,
        FmcApi::Integration => "/integration"@,
        FmcApi::DeviceGroups => "/devicegroups/devicegrouprecords"@,
        FmcApi::TaskStatuses => "/taskstatuses"@,
        FmcApi::DeviceClusters => "/devices"@,
        FmcApi::Object => "/object"@,
        FmcApi::Policy => "/policy"@,
        FmcApi::Deployment => "/deployment"@,
        FmcApi::Audit => "/audit/auditrecords"@,
        FmcApi::TaxiiConfig => "/taxiiconfig"@,
        FmcApi::Tid => "/tid"@,
        FmcApi::Updates => Seq::empty(),
        FmcApi::Info => Seq::empty(),
        FmcApi::HttpBasicAuth => Seq::empty(),
    }
}

/// The characters a view of an optional string holds.
pub open spec fn opt_str_view(o: Option<&str>) -> Option<Seq<char>> {
    match o {
        Some(s) => Some(s@),
        None => None,
    }
}

/// The tenant identifier spliced into a path: the identifier itself, or the
/// empty segment where none is available.
pub open spec fn tenant_segment(t: Option<Seq<char>>) -> Seq<char> {
    match t {
        Some(u) => u,
        None => Seq::empty(),
    }
}

/// The segments a resolved URL is assembled from, in order.
pub open spec fn path_segments(op: FmcApi, host: Seq<char>, tenant: Option<Seq<char>>) -> Seq<
    Seq<char>,
> {
    let base = seq!["https://"@, host, ":443"@, op_prefix(op)];
    if requires_tenant(op) {
        base + seq![tenant_segment(tenant), op_tail(op)]
    } else {
        base
    }
}

/// The concatenation of the first `n` segments.
pub open spec fn concat_upto(segs: Seq<Seq<char>>, n: int) -> Seq<char>
    decreases n,
{
    if n <= 0 {
        Seq::empty()
    } else {
        concat_upto(segs, n - 1) + segs[n - 1]
    }
}

/// The fully resolved URL for an operation: scheme, host, the fixed port,
/// the operation's path prefix, and for tenant-scoped operations the tenant
/// identifier followed by the operation's tail.
pub open spec fn path_spec(op: FmcApi, host: Seq<char>, tenant: Option<Seq<char>>) -> Seq<char> {
    concat_upto(path_segments(op, host, tenant), path_segments(op, host, tenant).len() as int)
}

/// The tenant segment as an owned string.
fn tenant_string(dom_uuid: Option<&str>) -> (r: String)
    ensures
        r@ == tenant_segment(opt_str_view(dom_uuid)),
{
    match dom_uuid {
        Some(u) => u.to_owned(),
        None => String::new(),
    }
}

impl FmcApi {
    /// The segments of the resolved URL for this operation, in the order
    /// they are joined.
    pub fn path_vec(self, address: &str, dom_uuid: Option<&str>) -> (r: Vec<String>)
        ensures
            r.deep_view() == path_segments(self, address@, opt_str_view(dom_uuid)),
    {
        let ghost segs = path_segments(self, address@, opt_str_view(dom_uuid));
        let mut path: Vec<String> = Vec::new();
        path.push("https://".to_owned());
        path.push(address.to_owned());
        path.push(":443".to_owned());
        match self {
            FmcApi::HttpBasicAuth => {
                path.push("/api/fmc_platform/v1/auth/generatetoken".to_owned());
            },
            FmcApi::Devices => {
                path.push("/api/fmc_config/v1/domain/".to_owned());
                path.push(tenant_string(dom_uuid));
                path.push("/devices/devicerecords".to_owned());
            },
            FmcApi::PolicyAssignments => {
                path.push("/api/fmc_config/v1/domain/".to_owned());
                path.push(tenant_string(dom_uuid));
                path.push("/assignments/policyassignments".to_owned());
            },
            FmcApi::DeviceHAPairs => {
                path.push("/api/fmc_config/v1/domain/".to_owned());
                path.push(tenant_string(dom_uuid));
                path.push("/devicehapairs/ftddevicehapairs".to_owned());
            },
            FmcApi::Integration => {
                path.push("/api/fmc_config/v1/domain/".to_owned());
                path.push(tenant_string(dom_uuid));
                path.push("/integration".to_owned());
            },
            FmcApi::DeviceGroups => {
                path.push("/api/fmc_config/v1/domain/".to_owned());
                path.push(tenant_string(dom_uuid));
                path.push("/devicegroups/devicegrouprecords".to_owned());
            },
            FmcApi::TaskStatuses => {
                path.push("/api/fmc_config/v1/domain/".to_owned());
                path.push(tenant_string(dom_uuid));
                path.push("/taskstatuses".to_owned());
            },
            FmcApi::DeviceClusters => {
                path.push("/api/fmc_config/v1/domain/".to_owned());
                path.push(tenant_string(dom_uuid));
                path.push("/devices".to_owned());
            },
            FmcApi::Object => {
                path.push("/api/fmc_config/v1/domain/".to_owned());
                path.push(tenant_string(dom_uuid));
                path.push("/object".to_owned());
            },
            FmcApi::Policy => {
                path.push("/api/fmc_config/v1/domain/".to_owned());
                path.push(tenant_string(dom_uuid));
                path.push("/policy".to_owned());
            },
            FmcApi::Deployment => {
                path.push("/api/fmc_config/v1/domain/".to_owned());
                path.push(tenant_string(dom_uuid));
                path.push("/deployment".to_owned());
            },
            FmcApi::Updates => {
                path.push("/api/fmc_config/v1/domain/".to_owned());
            },
            FmcApi::Audit => {
                path.push("/api/fmc_platform/v1/domain/".to_owned());
                path.push(tenant_string(dom_uuid));
                path.push("/audit/auditrecords".to_owned());
            },
            FmcApi::Info => {
                path.push("/api/fmc_platform/v1/info".to_owned());
            },
            FmcApi::TaxiiConfig => {
                path.push("/api/fmc_tid/v1/domain/".to_owned());
                path.push(tenant_string(dom_uuid));
                path.push("/taxiiconfig".to_owned());
            },
            FmcApi::Tid => {
                path.push("/api/fmc_tid/v1/domain/".to_owned());
                path.push(tenant_string(dom_uuid));
                path.push("/tid".to_owned());
            },
        }
        proof {
            assert(path.deep_view() =~~= segs);
        }
        path
    }

    /// The resolved URL for this operation: the segments joined in order.
    pub fn path_string(self, address: &str, dom_uuid: Option<&str>) -> (r: String)
        ensures
            r@ == path_spec(self, address@, opt_str_view(dom_uuid)),
    {
        let segs = self.path_vec(address, dom_uuid);
        let ghost model = path_segments(self, address@, opt_str_view(dom_uuid));
        let mut out = String::new();
        let mut i: usize = 0;
        while i < segs.len()
            invariant
                i <= segs.len(),
                segs.deep_view() == model,
                out@ == concat_upto(model, i as int),
            decreases segs.len() - i,
        {
            out.append(segs[i].as_str());
            i = i + 1;
        }
        out
    }
}

} // verus!
