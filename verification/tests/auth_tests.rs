use oidc_graphql_client::config::Credentials;
use oidc_graphql_client::discovery::{
    begin_discovery, conclude_discovery, discovery_request_for, DiscoveryReply, ProviderMetadata,
};
use oidc_graphql_client::error::ErrorKind;
use oidc_graphql_client::report::CauseChain;
use oidc_graphql_client::token::{
    conclude_exchange, exchange_password, AccessToken, TokenReply, GRANT_TYPE,
};
use oidc_graphql_client::transport::{
    build_client, AUTHORIZATION, BEARER_PREFIX, USER_AGENT, USER_AGENT_HEADER,
};

fn some(text: &str) -> Option<String> {
    Some(text.to_string())
}

fn one_cause(text: &str) -> CauseChain {
    let mut chain = CauseChain::new();
    chain.record(text.to_string());
    chain
}

fn metadata() -> ProviderMetadata {
    ProviderMetadata {
        issuer: "https://idp.example/realms/main".to_string(),
        token_endpoint: some("https://idp.example/realms/main/token"),
    }
}

#[test]
fn credentials_need_all_six_values() {
    let gathered = Credentials::from_source(
        some("id"),
        some("secret"),
        some("user"),
        some("pass"),
        some("https://idp.example"),
        some("https://api.example/graphql"),
    );
    let credentials = gathered.ok().unwrap();
    assert_eq!(credentials.client_id, "id");
    assert_eq!(credentials.client_secret, "secret");
    assert_eq!(credentials.username, "user");
    assert_eq!(credentials.password, "pass");
    assert_eq!(credentials.issuer_url, "https://idp.example");
    assert_eq!(credentials.api_url, "https://api.example/graphql");
}

#[test]
fn missing_client_id_is_reported_first() {
    let error = Credentials::from_source(None, None, None, None, None, None).err().unwrap();
    assert_eq!(error.kind, ErrorKind::MissingConfiguration);
    assert_eq!(error.causes.len(), 1);
    assert_eq!(error.causes.layer(0), "set CLIENT_ID");
    assert_eq!(error.report(), "ERROR: Missing configuration\n    caused by: set CLIENT_ID");
}

#[test]
fn missing_client_secret() {
    let error = Credentials::from_source(some("a"), None, some("c"), some("d"), some("e"), some("f"))
        .err()
        .unwrap();
    assert_eq!(error.kind, ErrorKind::MissingConfiguration);
    assert_eq!(error.causes.layer(0), "set CLIENT_SECRET");
}

#[test]
fn missing_username() {
    let error = Credentials::from_source(some("a"), some("b"), None, some("d"), some("e"), some("f"))
        .err()
        .unwrap();
    assert_eq!(error.causes.layer(0), "set USERNAME");
}

#[test]
fn missing_password() {
    let error = Credentials::from_source(some("a"), some("b"), some("c"), None, some("e"), some("f"))
        .err()
        .unwrap();
    assert_eq!(error.causes.layer(0), "set PASSWORD");
}

#[test]
fn missing_issuer_url() {
    let error = Credentials::from_source(some("a"), some("b"), some("c"), some("d"), None, some("f"))
        .err()
        .unwrap();
    assert_eq!(error.causes.layer(0), "set OIDC_URL");
}

#[test]
fn missing_api_url() {
    let error = Credentials::from_source(some("a"), some("b"), some("c"), some("d"), some("e"), None)
        .err()
        .unwrap();
    assert_eq!(error.kind, ErrorKind::MissingConfiguration);
    assert_eq!(error.causes.layer(0), "set API_URL");
}

#[test]
fn malformed_issuer_url_is_rejected() {
    for url in ["", "not a url", "idp.example/realm", "/relative/path", "https://", "http://[::1"] {
        let error = begin_discovery(url).err().unwrap();
        assert_eq!(error.kind, ErrorKind::InvalidIssuerUrl);
        assert_eq!(error.causes.len(), 1);
        assert!(error.business_errors.is_empty());
    }
}

#[test]
fn relative_issuer_url_names_the_fault() {
    let error = begin_discovery("idp.example/realm").err().unwrap();
    assert_eq!(error.causes.layer(0), "relative URL without a base");
    assert_eq!(
        error.report(),
        "ERROR: Invalid issuer URL\n    caused by: relative URL without a base"
    );
}

#[test]
fn well_formed_issuer_url_yields_its_request() {
    for url in ["https://idp.example", "https://idp.example/realms/main/", "http://localhost:8080/auth"] {
        let request = begin_discovery(url).ok().unwrap();
        assert_eq!(request.issuer_url, url);
    }
}

#[test]
fn request_follows_the_parsers_finding() {
    let request = discovery_request_for("https://idp.example", None).ok().unwrap();
    assert_eq!(request.issuer_url, "https://idp.example");
    let error = discovery_request_for("nonsense", some("empty host")).err().unwrap();
    assert_eq!(error.kind, ErrorKind::InvalidIssuerUrl);
    assert_eq!(error.causes.len(), 1);
    assert_eq!(error.causes.layer(0), "empty host");
}

#[test]
fn discovery_document_is_kept_as_it_arrived() {
    let found = conclude_discovery(DiscoveryReply::Document(metadata())).ok().unwrap();
    assert_eq!(found.issuer, "https://idp.example/realms/main");
    assert_eq!(found.token_endpoint, some("https://idp.example/realms/main/token"));
}

#[test]
fn discovery_twice_yields_identical_metadata() {
    let first = conclude_discovery(DiscoveryReply::Document(metadata())).ok().unwrap();
    let second = conclude_discovery(DiscoveryReply::Document(metadata())).ok().unwrap();
    assert_eq!(first.issuer.as_bytes(), second.issuer.as_bytes());
    assert_eq!(first.token_endpoint, second.token_endpoint);
    let a = begin_discovery("https://idp.example/realms/main").ok().unwrap();
    let b = begin_discovery("https://idp.example/realms/main").ok().unwrap();
    assert_eq!(a.issuer_url.as_bytes(), b.issuer_url.as_bytes());
}

#[test]
fn non_success_discovery_status_is_discovery_failed() {
    let cause = "Server returned invalid response: HTTP status code 503 Service Unavailable at https://idp.example/.well-known/openid-configuration";
    let error = conclude_discovery(DiscoveryReply::Failure(one_cause(cause))).err().unwrap();
    assert_eq!(error.kind, ErrorKind::DiscoveryFailed);
    assert_eq!(error.causes.len(), 1);
    assert_eq!(error.causes.layer(0), cause);
    let report = error.report();
    assert!(report.starts_with("ERROR: Failed to discover OpenID Provider\n"));
    assert!(report.contains("HTTP status code 503"));
}

#[test]
fn discovery_failure_keeps_the_whole_chain() {
    let mut chain = CauseChain::new();
    chain.record("Request failed".to_string());
    chain.record("error sending request".to_string());
    chain.record("dns error".to_string());
    let error = conclude_discovery(DiscoveryReply::Failure(chain)).err().unwrap();
    assert_eq!(error.kind, ErrorKind::DiscoveryFailed);
    assert_eq!(error.causes.len(), 3);
    assert_eq!(error.causes.layer(2), "dns error");
}

#[test]
fn password_grant_goes_to_the_discovered_endpoint() {
    let request = exchange_password(&metadata(), "id", "secret", "user", "pass").ok().unwrap();
    assert_eq!(request.token_endpoint, "https://idp.example/realms/main/token");
    assert_eq!(request.client_id, "id");
    assert_eq!(request.client_secret, "secret");
    assert_eq!(request.username, "user");
    assert_eq!(request.password, "pass");
    assert_eq!(GRANT_TYPE, "password");
}

#[test]
fn password_grant_needs_a_token_endpoint() {
    let bare = ProviderMetadata { issuer: "https://idp.example".to_string(), token_endpoint: None };
    let error = exchange_password(&bare, "id", "secret", "user", "pass").err().unwrap();
    assert_eq!(error.kind, ErrorKind::TokenExchangeFailed);
    assert_eq!(error.causes.layer(0), "the provider metadata declares no token endpoint");
}

#[test]
fn token_response_yields_the_access_token() {
    let token = conclude_exchange(TokenReply::Response { access_token: some("eyJhbGciOi.abc.def") })
        .ok()
        .unwrap();
    assert_eq!(token.secret(), "eyJhbGciOi.abc.def");
}

#[test]
fn token_response_without_access_token_fails() {
    let error = conclude_exchange(TokenReply::Response { access_token: None }).err().unwrap();
    assert_eq!(error.kind, ErrorKind::TokenExchangeFailed);
    assert_eq!(error.causes.len(), 1);
    assert_eq!(error.causes.layer(0), "the token response holds no access_token");
    assert_eq!(
        error.report(),
        "ERROR: Failed to contact token endpoint\n    caused by: the token response holds no access_token"
    );
}

#[test]
fn failed_token_request_fails_the_exchange() {
    let error = conclude_exchange(TokenReply::Failure(one_cause("Server returned error response")))
        .err()
        .unwrap();
    assert_eq!(error.kind, ErrorKind::TokenExchangeFailed);
    assert_eq!(error.causes.layer(0), "Server returned error response");
}

#[test]
fn client_carries_bearer_token_and_user_agent() {
    let client = build_client(AccessToken::new("tok123".to_string())).ok().unwrap();
    assert_eq!(client.authorization(), "Bearer tok123");
    assert_eq!(client.user_agent(), "graphql-rust/0.10.0");
    assert_eq!(USER_AGENT, "graphql-rust/0.10.0");
    assert_eq!(BEARER_PREFIX, "Bearer ");
}

#[test]
fn every_request_carries_exactly_one_authorization_header() {
    let client = build_client(AccessToken::new("tok123".to_string())).ok().unwrap();
    for _ in 0..5 {
        let headers = client.request_headers();
        assert_eq!(headers.len(), 2);
        let authorizations: Vec<&String> = headers
            .iter()
            .filter(|header| header.name.eq_ignore_ascii_case("authorization"))
            .map(|header| &header.value)
            .collect();
        assert_eq!(authorizations.len(), 1);
        assert_eq!(authorizations[0], "Bearer tok123");
        assert_eq!(headers[0].name, USER_AGENT_HEADER);
        assert_eq!(headers[0].value, "graphql-rust/0.10.0");
        assert_eq!(headers[1].name, AUTHORIZATION);
    }
}

#[test]
fn token_with_line_break_cannot_be_a_header() {
    for secret in ["line\nbreak", "carriage\rreturn", "nul\0byte", "delete\u{7f}", "\u{1b}escape"] {
        let error = build_client(AccessToken::new(secret.to_string())).err().unwrap();
        assert_eq!(error.kind, ErrorKind::InvalidTokenEncoding);
        assert_eq!(error.causes.len(), 0);
        assert_eq!(error.report(), "ERROR: Invalid access token encoding");
    }
}

#[test]
fn token_with_tab_space_or_wide_characters_is_accepted() {
    for secret in ["", "with space", "with\ttab", "~tilde~", "caf\u{e9}", "\u{4e2d}\u{6587}", "\u{80}"] {
        let client = build_client(AccessToken::new(secret.to_string())).ok().unwrap();
        assert_eq!(client.authorization(), &format!("Bearer {}", secret));
    }
}
