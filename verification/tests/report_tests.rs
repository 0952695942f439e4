use oidc_graphql_client::error::{headline, ClientError, ErrorKind, EXIT_FAILURE, EXIT_SUCCESS};
use oidc_graphql_client::report::{render_chain, CauseChain, MAX_CHAIN_DEPTH};

fn chain_of(layers: &[&str]) -> CauseChain {
    let mut chain = CauseChain::new();
    for layer in layers {
        chain.record(layer.to_string());
    }
    chain
}

#[test]
fn render_without_causes_is_the_headline() {
    let text = render_chain("Failed to discover OpenID Provider", &CauseChain::new());
    assert_eq!(text, "ERROR: Failed to discover OpenID Provider");
}

#[test]
fn render_puts_each_cause_on_its_own_line() {
    let chain = chain_of(&["request failed", "connection refused"]);
    let text = render_chain("Failed to contact token endpoint", &chain);
    assert_eq!(
        text,
        "ERROR: Failed to contact token endpoint\n    caused by: request failed\n    caused by: connection refused"
    );
}

#[test]
fn render_keeps_the_order_outermost_first() {
    let chain = chain_of(&["a", "b", "c"]);
    let text = render_chain("x", &chain);
    let a = text.find("caused by: a").unwrap();
    let b = text.find("caused by: b").unwrap();
    let c = text.find("caused by: c").unwrap();
    assert!(a < b && b < c);
    assert_eq!(text.lines().count(), 4);
}

#[test]
fn chain_starts_empty() {
    let chain = CauseChain::new();
    assert_eq!(chain.len(), 0);
}

#[test]
fn chain_records_layers_in_order() {
    let mut chain = CauseChain::new();
    assert!(chain.record("outer".to_string()));
    assert!(chain.record("inner".to_string()));
    assert_eq!(chain.len(), 2);
    assert_eq!(chain.layer(0), "outer");
    assert_eq!(chain.layer(1), "inner");
}

#[test]
fn chain_stops_the_walk_at_the_bound() {
    let mut chain = CauseChain::new();
    let mut steps = 0;
    // A cause that names itself as its cause: the walk would never end.
    loop {
        steps += 1;
        if !chain.record("again".to_string()) {
            break;
        }
        assert!(steps < 1000);
    }
    assert_eq!(steps, MAX_CHAIN_DEPTH);
    assert_eq!(chain.len(), MAX_CHAIN_DEPTH);
}

#[test]
fn full_chain_refuses_further_layers() {
    let mut chain = CauseChain::new();
    for _ in 0..MAX_CHAIN_DEPTH {
        chain.record("layer".to_string());
    }
    assert!(!chain.record("one too many".to_string()));
    assert_eq!(chain.len(), MAX_CHAIN_DEPTH);
    assert_eq!(chain.layer(MAX_CHAIN_DEPTH - 1), "layer");
}

#[test]
fn chain_bound_is_thirty_two() {
    assert_eq!(MAX_CHAIN_DEPTH, 32);
}

#[test]
fn headlines_of_all_kinds() {
    assert_eq!(headline(ErrorKind::MissingConfiguration), "Missing configuration");
    assert_eq!(headline(ErrorKind::InvalidIssuerUrl), "Invalid issuer URL");
    assert_eq!(headline(ErrorKind::DiscoveryFailed), "Failed to discover OpenID Provider");
    assert_eq!(headline(ErrorKind::TokenExchangeFailed), "Failed to contact token endpoint");
    assert_eq!(headline(ErrorKind::InvalidTokenEncoding), "Invalid access token encoding");
    assert_eq!(headline(ErrorKind::TransportError), "Failed to execute query");
    assert_eq!(headline(ErrorKind::NoDataInResponse), "No data in response");
    assert_eq!(headline(ErrorKind::DomainError), "Error found");
    assert_eq!(headline(ErrorKind::MissingOptionalField), "Missing Username");
}

#[test]
fn error_report_has_headline_and_causes() {
    let error = ClientError::new(
        ErrorKind::DiscoveryFailed,
        chain_of(&["Server returned invalid response: HTTP status code 500 at https://idp.example/.well-known/openid-configuration"]),
    );
    assert_eq!(
        error.report(),
        "ERROR: Failed to discover OpenID Provider\n    caused by: Server returned invalid response: HTTP status code 500 at https://idp.example/.well-known/openid-configuration"
    );
}

#[test]
fn bare_error_has_no_cause() {
    let error = ClientError::bare(ErrorKind::NoDataInResponse);
    assert_eq!(error.kind, ErrorKind::NoDataInResponse);
    assert_eq!(error.causes.len(), 0);
    assert!(error.business_errors.is_empty());
    assert_eq!(error.report(), "ERROR: No data in response");
}

#[test]
fn error_with_cause_has_one_layer() {
    let error = ClientError::with_cause(ErrorKind::TransportError, "timed out".to_string());
    assert_eq!(error.kind, ErrorKind::TransportError);
    assert_eq!(error.causes.len(), 1);
    assert_eq!(error.causes.layer(0), "timed out");
    assert_eq!(error.report(), "ERROR: Failed to execute query\n    caused by: timed out");
}

#[test]
fn exit_statuses() {
    assert_eq!(EXIT_SUCCESS, 0);
    assert_eq!(EXIT_FAILURE, 1);
}
