//! The credential store: basic-auth material supplied by the caller, and
//! the token pair minted from the headers of a successful authentication
//! exchange. The store moves forward through three modes and is never left
//! partially updated: a failing exchange leaves it exactly as it was.

use vstd::prelude::*;
use vstd::string::StringExecFns;

use crate::errors::FmcError;
use crate::foreign::{
    b64_encode, b64_of, now_epoch, rfc2822_epoch, rfc2822_epoch_of, uuid_canon, uuid_canon_of,
    MAX_EPOCH_SECS,
};
use crate::uri::opt_str_view;

verus! {

/// Seconds an issued access token stays valid: the fixed lifetime added to
/// the server's issuance timestamp.
pub const TOKEN_LIFETIME_SECS: i64 = 1800;

/// Where the store stands in the authentication lifecycle.
#[derive(Clone, Copy, Debug, PartialEq, Eq, Structural)]
pub enum CredMode {
    /// Fresh store: no material of any kind.
    Unauthenticated,
    /// Basic credentials are attached and wait to be exchanged.
    BasicPending,
    /// A token exchange succeeded; an access and refresh token are held.
    TokenHeld,
}

/// The mathematical value of a credential store.
#[verifier::ext_equal]
pub ghost struct CredsView {
    pub username: Option<Seq<char>>,
    pub password: Option<Seq<char>>,
    pub basic_auth: Option<Seq<char>>,
    pub xa_token: Option<Seq<char>>,
    pub xar_token: Option<Seq<char>>,
    pub dom_uuid: Option<Seq<char>>,
    pub issued: Option<int>,
    pub expires: Option<int>,
    pub mode: CredMode,
}

/// Session credentials: basic-auth material, and once an exchange has
/// succeeded, the issued token pair with the tenant it was issued for and
/// its issuance and expiry timestamps in seconds since the Unix epoch.
#[derive(Debug)]
pub struct SessionCreds {
    pub api_username: Option<String>,
    pub api_password: Option<String>,
    pub api_basic_auth: Option<String>,
    pub xa_token: Option<String>,
    pub xar_token: Option<String>,
    pub dom_uuid: Option<String>,
    pub token_issue_time: Option<i64>,
    pub token_expires: Option<i64>,
    pub mode: CredMode,
}

/// The characters an optional owned string holds.
pub open spec fn opt_string_view(o: Option<String>) -> Option<Seq<char>> {
    match o {
        Some(s) => Some(s@),
        None => None,
    }
}

/// An optional timestamp as a mathematical integer.
pub open spec fn opt_i64_view(o: Option<i64>) -> Option<int> {
    match o {
        Some(t) => Some(t as int),
        None => None,
    }
}

impl View for SessionCreds {
    type V = CredsView;

    open spec fn view(&self) -> CredsView {
        CredsView {
            username: opt_string_view(self.api_username),
            password: opt_string_view(self.api_password),
            basic_auth: opt_string_view(self.api_basic_auth),
            xa_token: opt_string_view(self.xa_token),
            xar_token: opt_string_view(self.xar_token),
            dom_uuid: opt_string_view(self.dom_uuid),
            issued: opt_i64_view(self.token_issue_time),
            expires: opt_i64_view(self.token_expires),
            mode: self.mode,
        }
    }
}

/// Well-formedness of a store: the token pair, its timestamps and the mode
/// stand or fall together, basic material comes as a whole, and an expiry
/// always lies exactly the fixed lifetime after issuance.
pub open spec fn creds_wf(c: CredsView) -> bool {
    &&& (c.xa_token is Some <==> c.mode is TokenHeld)
    &&& (c.xar_token is Some <==> c.mode is TokenHeld)
    &&& (c.issued is Some <==> c.mode is TokenHeld)
    &&& (c.expires is Some <==> c.mode is TokenHeld)
    &&& (c.mode is TokenHeld ==> c.dom_uuid is Some)
    &&& (c.mode is BasicPending ==> c.basic_auth is Some)
    &&& (c.basic_auth is Some <==> c.username is Some)
    &&& (c.basic_auth is Some <==> c.password is Some)
    &&& (c.issued matches Some(t) ==> c.expires == Some(t + TOKEN_LIFETIME_SECS as int))
    &&& (c.issued matches Some(t) ==> -MAX_EPOCH_SECS <= t <= MAX_EPOCH_SECS)
}

/// The store a fresh session starts from.
pub open spec fn creds_new_spec() -> CredsView {
    CredsView {
        username: None,
        password: None,
        basic_auth: None,
        xa_token: None,
        xar_token: None,
        dom_uuid: None,
        issued: None,
        expires: None,
        mode: CredMode::Unauthenticated,
    }
}

/// The string whose base64 rendering becomes the basic-auth material.
pub open spec fn basic_pair(user: Seq<char>, pass: Seq<char>) -> Seq<char> {
    user + ":"@ + pass
}

/// The store after basic credentials are supplied: the pair and its
/// encoding are attached, any previously held tokens are dropped, and the
/// mode returns to pending until the next exchange.
pub open spec fn with_basic_auth_spec(c: CredsView, user: Seq<char>, pass: Seq<char>) -> CredsView {
    CredsView {
        username: Some(user),
        password: Some(pass),
        basic_auth: Some(b64_of(basic_pair(user, pass))),
        xa_token: None,
        xar_token: None,
        issued: None,
        expires: None,
        mode: CredMode::BasicPending,
        ..c
    }
}

/// The outcome of folding the four credential headers of an authentication
/// exchange into a store: a new store in TokenHeld mode, or the first
/// failure met checking the headers in order. Only here are tokens minted.
pub open spec fn record_exchange_spec(
    c: CredsView,
    xa: Option<Seq<char>>,
    xar: Option<Seq<char>>,
    dom: Option<Seq<char>>,
    date: Option<Seq<char>>,
) -> Result<CredsView, FmcError> {
    if xa is None || xar is None || dom is None || date is None {
        Err(FmcError::MissingCredentialHeader)
    } else {
        match uuid_canon_of(dom->0) {
            None => Err(FmcError::MalformedTenantId),
            Some(tenant) => match rfc2822_epoch_of(date->0) {
                None => Err(FmcError::MalformedTimestamp),
                Some(t) => Ok(
                    CredsView {
                        xa_token: Some(xa->0),
                        xar_token: Some(xar->0),
                        dom_uuid: Some(tenant),
                        issued: Some(t as int),
                        expires: Some(t as int + TOKEN_LIFETIME_SECS as int),
                        mode: CredMode::TokenHeld,
                        ..c
                    },
                ),
            },
        }
    }
}

impl SessionCreds {
    /// An empty store for a fresh session.
    pub fn new() -> (r: SessionCreds)
        ensures
            r@ == creds_new_spec(),
            creds_wf(r@),
    {
        SessionCreds {
            api_username: None,
            api_password: None,
            api_basic_auth: None,
            xa_token: None,
            xar_token: None,
            dom_uuid: None,
            token_issue_time: None,
            token_expires: None,
            mode: CredMode::Unauthenticated,
        }
    }

    /// Attach basic credentials: the pair is stored along with the base64
    /// encoding of `username:password`, and the store returns to pending.
    /// No network is contacted.
    pub fn http_basic_auth(&mut self, username: &str, password: &str)
        ensures
            final(self)@ == with_basic_auth_spec(old(self)@, username@, password@),
            creds_wf(old(self)@) ==> creds_wf(final(self)@),
    {
        let mut auth_str = username.to_owned();
        auth_str.append(":");
        auth_str.append(password);
        let auth_b64 = b64_encode(auth_str.as_str());

        self.api_username = Some(username.to_owned());
        self.api_password = Some(password.to_owned());
        self.api_basic_auth = Some(auth_b64);
        self.xa_token = None;
        self.xar_token = None;
        self.token_issue_time = None;
        self.token_expires = None;
        self.mode = CredMode::BasicPending;
    }

    /// Fold the credential headers of a successful authentication exchange
    /// into the store: extract both tokens, the tenant identifier and the
    /// server timestamp, and mint the expiry exactly the fixed lifetime
    /// later. On any failure the store is left exactly as it was.
    pub fn record_tokens(
        &mut self,
        xa_token: Option<&str>,
        xar_token: Option<&str>,
        dom_uuid: Option<&str>,
        date: Option<&str>,
    ) -> (r: Result<(), FmcError>)
        ensures
            match r {
                Ok(()) => record_exchange_spec(
                    old(self)@,
                    opt_str_view(xa_token),
                    opt_str_view(xar_token),
                    opt_str_view(dom_uuid),
                    opt_str_view(date),
                ) == Ok::<CredsView, FmcError>(final(self)@),
                Err(e) => record_exchange_spec(
                    old(self)@,
                    opt_str_view(xa_token),
                    opt_str_view(xar_token),
                    opt_str_view(dom_uuid),
                    opt_str_view(date),
                ) == Err::<CredsView, FmcError>(e) && final(self)@ == old(self)@,
            },
            r is Ok && creds_wf(old(self)@) ==> creds_wf(final(self)@),
    {
        let (xa, xar, dom, when) = match (xa_token, xar_token, dom_uuid, date) {
            (Some(a), Some(b), Some(c), Some(d)) => (a, b, c, d),
            _ => {
                return Err(FmcError::MissingCredentialHeader);
            },
        };

        let tenant = match uuid_canon(dom) {
            Some(t) => t,
            None => {
                return Err(FmcError::MalformedTenantId);
            },
        };

        let time = match rfc2822_epoch(when) {
            Some(t) => t,
            None => {
                return Err(FmcError::MalformedTimestamp);
            },
        };

        let expiry = time + TOKEN_LIFETIME_SECS;

        self.xa_token = Some(xa.to_owned());
        self.xar_token = Some(xar.to_owned());
        self.dom_uuid = Some(tenant);
        self.token_issue_time = Some(time);
        self.token_expires = Some(expiry);
        self.mode = CredMode::TokenHeld;
        Ok(())
    }

    /// Seconds the held token remains valid with respect to the given
    /// clock reading. Negative once the token has expired: a reportable
    /// state, not an error.
    pub fn remaining_lifetime(&self, now: i64) -> (r: i64)
        requires
            self@.mode is TokenHeld,
            creds_wf(self@),
            -MAX_EPOCH_SECS <= now <= MAX_EPOCH_SECS,
        ensures
            r == self@.expires->0 - now,
    {
        match self.token_expires {
            Some(e) => e - now,
            None => 0,
        }
    }

    /// Seconds the held token remains valid, read against the system clock
    /// now: the expiry minus the instant the clock returned, which is only
    /// known to lie within chrono's representable range.
    pub fn token_age(&self) -> (r: i64)
        requires
            self@.mode is TokenHeld,
            creds_wf(self@),
        ensures
            self@.expires->0 - MAX_EPOCH_SECS <= r <= self@.expires->0 + MAX_EPOCH_SECS,
    {
        let right_now = now_epoch();
        self.remaining_lifetime(right_now)
    }
}

} // verus!
