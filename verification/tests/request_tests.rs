use fmc_client::creds::CredMode;
use fmc_client::errors::FmcError;
use fmc_client::request::{FmcRequest, RequestType};
use fmc_client::uri::FmcApi;

const TENANT: &str = "f3b4958c-52a1-11e7-802a-010203040506";
const NEW_YEAR: &str = "Mon, 01 Jan 2024 00:00:00 GMT";

#[test]
fn basic_auth_header_is_the_encoded_pair() {
    let req = FmcRequest::new()
        .host("10.17.11.151")
        .post(FmcApi::HttpBasicAuth)
        .unwrap()
        .http_basic("apiuser", "vZZ90-8D1z")
        .build()
        .unwrap();
    let built = req.req.as_ref().unwrap();
    assert_eq!(built.method, RequestType::POST);
    assert_eq!(
        built.uri,
        "https://10.17.11.151:443/api/fmc_platform/v1/auth/generatetoken"
    );
    assert_eq!(built.headers.len(), 2);
    assert_eq!(built.headers[0].name, "Content-Type");
    assert_eq!(built.headers[0].value, "application/json");
    assert_eq!(built.headers[1].name, "Authorization");
    assert_eq!(
        built.headers[1].value,
        format!("Basic {}", base64::encode("apiuser:vZZ90-8D1z"))
    );
}

#[test]
fn materialize_without_auth_fails_closed() {
    let r = FmcRequest::new()
        .host("example.local")
        .get(FmcApi::Info)
        .unwrap()
        .build();
    assert!(matches!(r, Err(FmcError::NoAuthenticationConfigured)));
}

#[test]
fn materialize_without_target_fails() {
    let r = FmcRequest::new()
        .host("example.local")
        .http_basic("u", "p")
        .build();
    assert!(matches!(r, Err(FmcError::NoTargetResolved)));
}

#[test]
fn resolving_without_host_fails() {
    let r = FmcRequest::new().get(FmcApi::Info);
    assert!(matches!(r, Err(FmcError::UnresolvedHost)));
    let r = FmcRequest::new().host("").get(FmcApi::Info);
    assert!(matches!(r, Err(FmcError::UnresolvedHost)));
}

#[test]
fn tenant_scoped_operation_needs_a_recorded_tenant() {
    let r = FmcRequest::new().host("example.local").get(FmcApi::Devices);
    assert!(matches!(r, Err(FmcError::MissingTenantScope)));
}

#[test]
fn bearer_round_trip_keeps_method_and_url() {
    let req = FmcRequest::new()
        .host("example.local")
        .get(FmcApi::Info)
        .unwrap()
        .xauth_access_token("shanehulk")
        .build()
        .unwrap();
    let built = req.req.as_ref().unwrap();
    assert_eq!(built.method, RequestType::GET);
    assert_eq!(built.uri, "https://example.local:443/api/fmc_platform/v1/info");
    assert_eq!(req.uri.as_deref(), Some(built.uri.as_str()));
    assert_eq!(built.headers.len(), 2);
    assert_eq!(built.headers[0].name, "Content-Type");
    assert_eq!(built.headers[1].name, "X-Auth-Access-Token");
    assert_eq!(built.headers[1].value, "shanehulk");
}

#[test]
fn latest_auth_choice_wins() {
    let req = FmcRequest::new()
        .host("example.local")
        .get(FmcApi::Info)
        .unwrap()
        .http_basic("u", "p")
        .xauth_access_token("tok")
        .build()
        .unwrap();
    let built = req.req.as_ref().unwrap();
    assert_eq!(built.headers[1].name, "X-Auth-Access-Token");
    assert_eq!(built.headers[1].value, "tok");
}

#[test]
fn exchange_chain_folds_tokens_into_the_next_builder() {
    let b = FmcRequest::new()
        .host("10.17.11.151")
        .post(FmcApi::HttpBasicAuth)
        .unwrap()
        .http_basic("apiuser", "vZZ90-8D1z")
        .build()
        .unwrap();
    // fold in the credential headers a successful exchange would carry
    let b = b
        .advance(Some("tokenA"), Some("tokenR"), Some(TENANT), Some(NEW_YEAR))
        .unwrap();
    assert_eq!(b.sess_creds.mode, CredMode::TokenHeld);
    assert!(b.method.is_none());
    assert!(b.uri.is_none());
    assert!(b.req.is_none());
    assert_eq!(b.host.as_deref(), Some("10.17.11.151"));

    // the next chain step needs no explicit token: the access token is the default
    let req = b.get(FmcApi::Devices).unwrap().build().unwrap();
    let built = req.req.as_ref().unwrap();
    assert_eq!(built.method, RequestType::GET);
    assert_eq!(
        built.uri,
        format!(
            "https://10.17.11.151:443/api/fmc_config/v1/domain/{}/devices/devicerecords",
            TENANT
        )
    );
    assert_eq!(built.headers.len(), 2);
    assert_eq!(built.headers[1].name, "X-Auth-Access-Token");
    assert_eq!(built.headers[1].value, "tokenA");
}

#[test]
fn failed_exchange_yields_no_next_builder() {
    let b = FmcRequest::new()
        .host("10.17.11.151")
        .post(FmcApi::HttpBasicAuth)
        .unwrap()
        .http_basic("apiuser", "pw")
        .build()
        .unwrap();
    let r = b.advance(Some("tokenA"), None, Some(TENANT), Some(NEW_YEAR));
    assert!(matches!(r, Err(FmcError::MissingCredentialHeader)));
}

#[test]
fn advance_without_exchange_propagates_the_store() {
    let b = FmcRequest::new()
        .host("h.local")
        .post(FmcApi::HttpBasicAuth)
        .unwrap()
        .http_basic("u", "p")
        .build()
        .unwrap();
    let b = b
        .advance(Some("tok"), Some("ref"), Some(TENANT), Some(NEW_YEAR))
        .unwrap();
    let issue = b.sess_creds.token_issue_time;
    // a bearer-authenticated request is no exchange: headers are not recorded
    let b = b
        .get(FmcApi::Devices)
        .unwrap()
        .build()
        .unwrap()
        .advance(Some("other"), Some("other"), Some(TENANT), Some(NEW_YEAR))
        .unwrap();
    assert_eq!(b.sess_creds.xa_token.as_deref(), Some("tok"));
    assert_eq!(b.sess_creds.token_issue_time, issue);
}

#[test]
fn store_keeps_the_builder() {
    let b = FmcRequest::new().host("h.local").store();
    assert_eq!(b.host.as_deref(), Some("h.local"));
    assert!(b.method.is_none());
}
