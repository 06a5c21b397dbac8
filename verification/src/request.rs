//! The request builder: an immutable, chainable value that accumulates
//! method, target URL and authentication choice, then materializes a
//! transport-ready request descriptor. Each step consumes the previous
//! builder and produces the next, so a consumed builder cannot be reused
//! and no step ever leaves one partially updated.

use vstd::prelude::*;
use vstd::string::StringExecFns;

use crate::creds::{
    creds_new_spec, record_exchange_spec, with_basic_auth_spec, CredsView, SessionCreds,
};
use crate::errors::FmcError;
use crate::foreign::b64_of;
use crate::uri::{opt_str_view, path_spec, requires_tenant, FmcApi};

verus! {

/// The HTTP method a request will carry.
#[derive(Clone, Copy, Debug, PartialEq, Eq, Structural)]
pub enum RequestType {
    GET,
    POST,
    PUT,
    DELETE,
}

/// The authentication choice attached to a builder. The most recent choice
/// wins: one request carries exactly one authentication header.
#[derive(Debug)]
pub enum AuthChoice {
    /// Nothing attached yet: materialization fails closed.
    NoAuth,
    /// Basic credentials, held as the base64 rendering of `user:password`.
    Basic(String),
    /// A bearer access token.
    Bearer(String),
}

/// The mathematical value of an authentication choice.
pub ghost enum AuthView {
    NoAuth,
    Basic(Seq<char>),
    Bearer(Seq<char>),
}

impl View for AuthChoice {
    type V = AuthView;

    open spec fn view(&self) -> AuthView {
        match self {
            AuthChoice::NoAuth => AuthView::NoAuth,
            AuthChoice::Basic(s) => AuthView::Basic(s@),
            AuthChoice::Bearer(s) => AuthView::Bearer(s@),
        }
    }
}

/// One header of a materialized request.
#[derive(Debug)]
pub struct Header {
    pub name: String,
    pub value: String,
}

/// The mathematical value of a header.
#[verifier::ext_equal]
pub ghost struct HeaderView {
    pub name: Seq<char>,
    pub value: Seq<char>,
}

impl View for Header {
    type V = HeaderView;

    open spec fn view(&self) -> HeaderView {
        HeaderView { name: self.name@, value: self.value@ }
    }
}

/// A transport-ready request descriptor: method, target URL and headers,
/// ready to be handed to whatever carries it onto the wire.
#[derive(Debug)]
pub struct HttpRequest {
    pub method: RequestType,
    pub uri: String,
    pub headers: Vec<Header>,
}

/// The mathematical value of a request descriptor.
#[verifier::ext_equal]
pub ghost struct HttpRequestView {
    pub method: RequestType,
    pub uri: Seq<char>,
    pub headers: Seq<HeaderView>,
}

impl View for HttpRequest {
    type V = HttpRequestView;

    open spec fn view(&self) -> HttpRequestView {
        HttpRequestView {
            method: self.method,
            uri: self.uri@,
            headers: Seq::new(self.headers@.len(), |i: int| self.headers@[i]@),
        }
    }
}

/// The request builder itself.
#[derive(Debug)]
pub struct FmcRequest {
    pub method: Option<RequestType>,
    pub host: Option<String>,
    pub uri: Option<String>,
    pub req: Option<HttpRequest>,
    pub auth: AuthChoice,
    pub sess_creds: SessionCreds,
}

/// The mathematical value of a builder.
#[verifier::ext_equal]
pub ghost struct FmcRequestView {
    pub method: Option<RequestType>,
    pub host: Option<Seq<char>>,
    pub uri: Option<Seq<char>>,
    pub req: Option<HttpRequestView>,
    pub auth: AuthView,
    pub creds: CredsView,
}

/// The view of an optional descriptor.
pub open spec fn opt_req_view(o: Option<HttpRequest>) -> Option<HttpRequestView> {
    match o {
        Some(r) => Some(r@),
        None => None,
    }
}

impl View for FmcRequest {
    type V = FmcRequestView;

    open spec fn view(&self) -> FmcRequestView {
        FmcRequestView {
            method: self.method,
            host: crate::creds::opt_string_view(self.host),
            uri: crate::creds::opt_string_view(self.uri),
            req: opt_req_view(self.req),
            auth: self.auth@,
            creds: self.sess_creds@,
        }
    }
}

/// A builder result by its mathematical value.
pub open spec fn req_result_view(r: Result<FmcRequest, FmcError>) -> Result<
    FmcRequestView,
    FmcError,
> {
    match r {
        Ok(b) => Ok(b@),
        Err(e) => Err(e),
    }
}

/// The builder a fresh session starts from.
pub open spec fn request_new_spec() -> FmcRequestView {
    FmcRequestView {
        method: None,
        host: None,
        uri: None,
        req: None,
        auth: AuthView::NoAuth,
        creds: creds_new_spec(),
    }
}

/// The fixed Content-Type header every materialized request carries.
pub open spec fn content_type_header() -> HeaderView {
    HeaderView { name: "Content-Type"@, value: "application/json"@ }
}

/// The Authorization header carrying basic-auth material.
pub open spec fn basic_header(material: Seq<char>) -> HeaderView {
    HeaderView { name: "Authorization"@, value: "Basic "@ + material }
}

/// The access-token header carrying a bearer token.
pub open spec fn bearer_header(token: Seq<char>) -> HeaderView {
    HeaderView { name: "X-Auth-Access-Token"@, value: token }
}

/// The outcome of resolving an operation against a builder: the target URL
/// and method are set, or the first configuration failure met. A host must
/// be present and non-empty, and a tenant-scoped operation needs a recorded
/// tenant identifier.
pub open spec fn resolve_spec(b: FmcRequestView, op: FmcApi, m: RequestType) -> Result<
    FmcRequestView,
    FmcError,
> {
    if b.host is None || b.host->0.len() == 0 {
        Err(FmcError::UnresolvedHost)
    } else if requires_tenant(op) && b.creds.dom_uuid is None {
        Err(FmcError::MissingTenantScope)
    } else {
        Ok(
            FmcRequestView {
                method: Some(m),
                uri: Some(path_spec(op, b.host->0, b.creds.dom_uuid)),
                ..b
            },
        )
    }
}

/// The builder after basic credentials are attached: the store holds the
/// pair and its encoding, and the authentication choice becomes Basic.
pub open spec fn http_basic_spec(b: FmcRequestView, user: Seq<char>, pass: Seq<char>) -> FmcRequestView {
    FmcRequestView {
        auth: AuthView::Basic(b64_of(crate::creds::basic_pair(user, pass))),
        creds: with_basic_auth_spec(b.creds, user, pass),
        ..b
    }
}

/// The builder after a bearer token is attached: the latest choice wins.
pub open spec fn bearer_spec(b: FmcRequestView, token: Seq<char>) -> FmcRequestView {
    FmcRequestView { auth: AuthView::Bearer(token), ..b }
}

/// The outcome of materializing a builder: a descriptor carrying the
/// method, the resolved URL, the fixed Content-Type header and exactly one
/// authentication header chosen by the authentication choice — or the
/// configuration failure met. A builder with no choice fails closed.
pub open spec fn build_spec(b: FmcRequestView) -> Result<FmcRequestView, FmcError> {
    if b.uri is None || b.method is None {
        Err(FmcError::NoTargetResolved)
    } else {
        match b.auth {
            AuthView::NoAuth => Err(FmcError::NoAuthenticationConfigured),
            AuthView::Basic(material) => Ok(
                FmcRequestView {
                    req: Some(
                        HttpRequestView {
                            method: b.method->0,
                            uri: b.uri->0,
                            headers: seq![content_type_header(), basic_header(material)],
                        },
                    ),
                    ..b
                },
            ),
            AuthView::Bearer(token) => Ok(
                FmcRequestView {
                    req: Some(
                        HttpRequestView {
                            method: b.method->0,
                            uri: b.uri->0,
                            headers: seq![content_type_header(), bearer_header(token)],
                        },
                    ),
                    ..b
                },
            ),
        }
    }
}

/// The outcome of folding a response back into the chain. A builder that
/// carried basic credentials was the authentication exchange: its response
/// headers mint a fresh store, and the next builder is seeded with the new
/// access token. Any other builder propagates its store unchanged, keeping
/// a held token as the default choice. Either way the next builder starts
/// with no method, target or descriptor.
pub open spec fn advance_spec(
    b: FmcRequestView,
    xa: Option<Seq<char>>,
    xar: Option<Seq<char>>,
    dom: Option<Seq<char>>,
    date: Option<Seq<char>>,
) -> Result<FmcRequestView, FmcError> {
    if b.auth is Basic {
        match record_exchange_spec(b.creds, xa, xar, dom, date) {
            Err(e) => Err(e),
            Ok(c2) => Ok(
                FmcRequestView {
                    method: None,
                    host: b.host,
                    uri: None,
                    req: None,
                    auth: AuthView::Bearer(c2.xa_token->0),
                    creds: c2,
                },
            ),
        }
    } else {
        Ok(
            FmcRequestView {
                method: None,
                host: b.host,
                uri: None,
                req: None,
                auth: match b.creds.xa_token {
                    Some(t) => AuthView::Bearer(t),
                    None => AuthView::NoAuth,
                },
                creds: b.creds,
            },
        )
    }
}

impl FmcRequest {
    /// A fresh builder with an empty credential store.
    pub fn new() -> (r: FmcRequest)
        ensures
            r@ == request_new_spec(),
    {
        FmcRequest {
            method: None,
            host: None,
            uri: None,
            req: None,
            auth: AuthChoice::NoAuth,
            sess_creds: SessionCreds::new(),
        }
    }

    /// Record the target host for every operation resolved from here on.
    pub fn host(self, host: &str) -> (r: FmcRequest)
        ensures
            r@ == (FmcRequestView { host: Some(host@), ..self@ }),
    {
        FmcRequest { host: Some(host.to_owned()), ..self }
    }

    /// Resolve an operation and set the method: the shared step behind the
    /// four method-specific entry points.
    fn with_method(self, op: FmcApi, m: RequestType) -> (r: Result<FmcRequest, FmcError>)
        ensures
            req_result_view(r) == resolve_spec(self@, op, m),
    {
        let FmcRequest { method: _, host, uri: _, req, auth, sess_creds } = self;
        let h = match host {
            Some(h) => h,
            None => {
                return Err(FmcError::UnresolvedHost);
            },
        };
        if h.as_str().is_empty() {
            return Err(FmcError::UnresolvedHost);
        }
        let tenant_known = match &sess_creds.dom_uuid {
            Some(_) => true,
            None => false,
        };
        if crate::uri::requires_tenant_scope(op) && !tenant_known {
            return Err(FmcError::MissingTenantScope);
        }
        let tenant: Option<&str> = match &sess_creds.dom_uuid {
            Some(u) => Some(u.as_str()),
            None => None,
        };
        let api_path = op.path_string(h.as_str(), tenant);
        Ok(
            FmcRequest {
                method: Some(m),
                host: Some(h),
                uri: Some(api_path),
                req,
                auth,
                sess_creds,
            },
        )
    }

    /// Resolve an operation as a GET against the recorded host.
    pub fn get(self, req_type: FmcApi) -> (r: Result<FmcRequest, FmcError>)
        ensures
            req_result_view(r) == resolve_spec(self@, req_type, RequestType::GET),
    {
        self.with_method(req_type, RequestType::GET)
    }

    /// Resolve an operation as a POST against the recorded host.
    pub fn post(self, req_type: FmcApi) -> (r: Result<FmcRequest, FmcError>)
        ensures
            req_result_view(r) == resolve_spec(self@, req_type, RequestType::POST),
    {
        self.with_method(req_type, RequestType::POST)
    }

    /// Resolve an operation as a PUT against the recorded host.
    pub fn put(self, req_type: FmcApi) -> (r: Result<FmcRequest, FmcError>)
        ensures
            req_result_view(r) == resolve_spec(self@, req_type, RequestType::PUT),
    {
        self.with_method(req_type, RequestType::PUT)
    }

    /// Resolve an operation as a DELETE against the recorded host.
    pub fn delete(self, req_type: FmcApi) -> (r: Result<FmcRequest, FmcError>)
        ensures
            req_result_view(r) == resolve_spec(self@, req_type, RequestType::DELETE),
    {
        self.with_method(req_type, RequestType::DELETE)
    }

    /// Attach basic credentials: the store encodes and keeps the pair, and
    /// the authentication choice becomes Basic. Mutually exclusive with a
    /// bearer token — the most recent call wins.
    pub fn http_basic(self, username: &str, password: &str) -> (r: FmcRequest)
        ensures
            r@ == http_basic_spec(self@, username@, password@),
    {
        let FmcRequest { method, host, uri, req, auth: _, sess_creds: mut sc } = self;
        sc.http_basic_auth(username, password);
        let material = match &sc.api_basic_auth {
            Some(b) => b.clone(),
            None => String::new(),
        };
        FmcRequest { method, host, uri, req, auth: AuthChoice::Basic(material), sess_creds: sc }
    }

    /// Attach a bearer access token. Mutually exclusive with basic
    /// credentials — the most recent call wins.
    pub fn xauth_access_token(self, access_token: &str) -> (r: FmcRequest)
        ensures
            r@ == bearer_spec(self@, access_token@),
    {
        let FmcRequest { method, host, uri, req, auth: _, sess_creds } = self;
        FmcRequest {
            method,
            host,
            uri,
            req,
            auth: AuthChoice::Bearer(access_token.to_owned()),
            sess_creds,
        }
    }

    /// Materialize the builder into a transport-ready descriptor: the
    /// method, the resolved URL, a fixed Content-Type header and exactly
    /// one authentication header. Fails closed without an authentication
    /// choice, and fails when no operation has been resolved.
    pub fn build(self) -> (r: Result<FmcRequest, FmcError>)
        ensures
            req_result_view(r) == build_spec(self@),
    {
        let FmcRequest { method, host, uri, req: _, auth, sess_creds } = self;
        let u = match uri {
            Some(u) => u,
            None => {
                return Err(FmcError::NoTargetResolved);
            },
        };
        let m = match method {
            Some(m) => m,
            None => {
                return Err(FmcError::NoTargetResolved);
            },
        };
        let mut headers: Vec<Header> = Vec::new();
        headers.push(
            Header { name: "Content-Type".to_owned(), value: "application/json".to_owned() },
        );
        match &auth {
            AuthChoice::NoAuth => {
                return Err(FmcError::NoAuthenticationConfigured);
            },
            AuthChoice::Basic(material) => {
                let mut v = "Basic ".to_owned();
                v.append(material.as_str());
                headers.push(Header { name: "Authorization".to_owned(), value: v });
            },
            AuthChoice::Bearer(token) => {
                headers.push(
                    Header { name: "X-Auth-Access-Token".to_owned(), value: token.clone() },
                );
            },
        }
        let descriptor = HttpRequest { method: m, uri: u.clone(), headers };
        let out = FmcRequest {
            method: Some(m),
            host,
            uri: Some(u),
            req: Some(descriptor),
            auth,
            sess_creds,
        };
        proof {
            assert(out@.req->0.headers =~= build_spec(self@)->Ok_0.req->0.headers);
            assert(out@ =~= build_spec(self@)->Ok_0);
        }
        Ok(out)
    }

    /// Fold a response back into the chain. The caller hands over the four
    /// credential headers of the response; if this builder carried basic
    /// credentials it was the authentication exchange, and they mint a
    /// fresh store. Otherwise the store is propagated unchanged. The result
    /// is the next builder, seeded with the held access token, ready for
    /// the next step of the chain; on failure no new builder exists.
    pub fn advance(
        self,
        xa_token: Option<&str>,
        xar_token: Option<&str>,
        dom_uuid: Option<&str>,
        date: Option<&str>,
    ) -> (r: Result<FmcRequest, FmcError>)
        ensures
            req_result_view(r) == advance_spec(
                self@,
                opt_str_view(xa_token),
                opt_str_view(xar_token),
                opt_str_view(dom_uuid),
                opt_str_view(date),
            ),
    {
        let FmcRequest { method: _, host, uri: _, req: _, auth, sess_creds: mut sc } = self;
        let was_exchange = match &auth {
            AuthChoice::Basic(_) => true,
            _ => false,
        };
        if was_exchange {
            match sc.record_tokens(xa_token, xar_token, dom_uuid, date) {
                Ok(()) => {},
                Err(e) => {
                    return Err(e);
                },
            }
        }
        let next_auth = match &sc.xa_token {
            Some(t) => AuthChoice::Bearer(t.clone()),
            None => AuthChoice::NoAuth,
        };
        Ok(
            FmcRequest {
                method: None,
                host,
                uri: None,
                req: None,
                auth: next_auth,
                sess_creds: sc,
            },
        )
    }

    /// Keep the builder as it stands, ending a chain without sending.
    pub fn store(self) -> (r: FmcRequest)
        ensures
            r@ == self@,
    {
        self
    }
}

} // verus!
