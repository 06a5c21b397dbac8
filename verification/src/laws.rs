//! The laws the session layer obeys, stated over the mathematical models
//! that the executable functions are proved to follow, so each holds for
//! every input, not just the ones a test happens to pick.

use vstd::prelude::*;

use crate::creds::{basic_pair, record_exchange_spec, CredsView, TOKEN_LIFETIME_SECS};
use crate::errors::FmcError;
use crate::foreign::{b64_of, rfc2822_epoch_of};
use crate::request::{
    basic_header, bearer_header, bearer_spec, build_spec, content_type_header, http_basic_spec,
    resolve_spec, FmcRequestView, RequestType,
};
use crate::uri::{path_spec, requires_tenant, FmcApi};

verus! {

/// For every username and password, attaching basic credentials and then
/// materializing yields an Authorization header of exactly "Basic "
/// followed by the base64 rendering of "username:password", beside the
/// fixed Content-Type header and nothing else.
pub proof fn lemma_basic_auth_header(b: FmcRequestView, user: Seq<char>, pass: Seq<char>)
    requires
        b.method is Some,
        b.uri is Some,
    ensures
        build_spec(http_basic_spec(b, user, pass)) matches Ok(done) && done.req->0.headers
            == seq![
            content_type_header(),
            basic_header(b64_of(basic_pair(user, pass))),
        ],
{
}

/// For every operation scoped to a tenant, resolving it fails with
/// MissingTenantScope as long as no tenant identifier has been recorded,
/// and succeeds once one has.
pub proof fn lemma_tenant_scope(b: FmcRequestView, op: FmcApi, m: RequestType)
    requires
        requires_tenant(op),
        b.host matches Some(h) && h.len() > 0,
    ensures
        b.creds.dom_uuid is None ==> resolve_spec(b, op, m) == Err::<FmcRequestView, FmcError>(
            FmcError::MissingTenantScope,
        ),
        b.creds.dom_uuid is Some ==> resolve_spec(b, op, m) is Ok,
{
}

/// Folding the same four headers always derives the same store, the
/// outcome being a function of them alone; and a successful exchange sets
/// the issuance to the instant the Date header names and the expiry
/// exactly the fixed lifetime later.
pub proof fn lemma_record_exchange_shape(
    c: CredsView,
    xa: Option<Seq<char>>,
    xar: Option<Seq<char>>,
    dom: Option<Seq<char>>,
    date: Option<Seq<char>>,
)
    ensures
        record_exchange_spec(c, xa, xar, dom, date) matches Ok(c2) ==> {
            &&& c2.issued == Some(rfc2822_epoch_of(date->0)->0 as int)
            &&& c2.expires->0 - c2.issued->0 == TOKEN_LIFETIME_SECS as int
        },
{
}

/// Materializing a builder that never saw an authentication choice fails
/// with NoAuthenticationConfigured, for every method and URL combination.
pub proof fn lemma_materialize_fails_closed(b: FmcRequestView)
    requires
        b.method is Some,
        b.uri is Some,
        b.auth is NoAuth,
    ensures
        build_spec(b) == Err::<FmcRequestView, FmcError>(FmcError::NoAuthenticationConfigured),
{
}

/// Round trip: resolving an operation as a GET, attaching a bearer token
/// and materializing yields a descriptor whose method is GET, whose URL is
/// the resolved URL unchanged, and whose only authentication header is the
/// access-token header carrying that token, beside the fixed Content-Type.
pub proof fn lemma_bearer_round_trip(b: FmcRequestView, op: FmcApi, token: Seq<char>)
    requires
        b.host matches Some(h) && h.len() > 0,
        requires_tenant(op) ==> b.creds.dom_uuid is Some,
    ensures
        resolve_spec(b, op, RequestType::GET) matches Ok(resolved) && build_spec(
            bearer_spec(resolved, token),
        ) matches Ok(done) && {
            let d = done.req->0;
            &&& d.method == RequestType::GET
            &&& d.uri == path_spec(op, b.host->0, b.creds.dom_uuid)
            &&& done.uri == Some(d.uri)
            &&& d.headers == seq![content_type_header(), bearer_header(token)]
        },
{
}

} // verus!
