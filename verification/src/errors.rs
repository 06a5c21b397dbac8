use vstd::prelude::*;

verus! {

/// Typed failures across the session layer.
///
/// Configuration errors arise before a request ever leaves the builder;
/// protocol errors arise when a response carries unusable credential
/// headers. None of them is retried and none is downgraded: every failing
/// step reports its reason to the caller and yields no new state.
#[derive(Clone, Copy, Debug, PartialEq, Eq, Structural)]
pub enum FmcError {
    /// No host was supplied before resolving an operation path.
    UnresolvedHost,
    /// The operation is scoped to a tenant, but no tenant identifier has
    /// been recorded yet.
    MissingTenantScope,
    /// The builder was asked to materialize before any operation resolved
    /// a target URL and method.
    NoTargetResolved,
    /// The builder was asked to materialize without any authentication
    /// choice attached.
    NoAuthenticationConfigured,
    /// One of the four expected credential headers was absent from an
    /// authentication exchange response.
    MissingCredentialHeader,
    /// The tenant identifier header did not parse as a UUID.
    MalformedTenantId,
    /// The Date header did not parse as an RFC 2822 timestamp.
    MalformedTimestamp,
}

} // verus!
