use oidc_graphql_client::error::{BusinessError, ErrorKind};
use oidc_graphql_client::query::{
    execute, success_lines, Identity, MeResult, QueryReply, QueryResponse, ResponseData,
};
use serde_json::Value;

fn text_of(value: &Value) -> String {
    value.as_str().unwrap().to_string()
}

fn identity_of(value: &Value) -> Option<Identity> {
    if value.is_null() {
        return None;
    }
    Some(Identity {
        id: text_of(&value["id"]),
        email: text_of(&value["email"]),
        username: value["username"].as_str().map(|s| s.to_string()),
    })
}

fn response_of(body: &str) -> QueryResponse {
    let envelope: Value = serde_json::from_str(body).unwrap();
    let data = &envelope["data"];
    if data.is_null() {
        return QueryResponse { data: None };
    }
    let me = &data["me"];
    let errors = match me["errors"].as_array() {
        Some(list) => list.iter().map(|e| BusinessError { message: text_of(&e["message"]) }).collect(),
        None => Vec::new(),
    };
    QueryResponse { data: Some(ResponseData { me: MeResult { me: identity_of(&me["me"]), errors } }) }
}

#[test]
fn response_with_payload_yields_the_three_values() {
    let body = r#"{"data":{"me":{"me":{"id":"u1","email":"a@b.com","username":"alice"},"errors":[]}}}"#;
    let execution = execute(QueryReply::Decoded { status: 200, response: response_of(body) });
    assert!(execution.diagnostics.is_empty());
    let identity = execution.result.ok().unwrap();
    assert_eq!(identity.id, "u1");
    assert_eq!(identity.email, "a@b.com");
    assert_eq!(identity.username.as_deref(), Some("alice"));
    let lines = success_lines(&identity).ok().unwrap();
    assert_eq!(lines, vec!["my id: u1", "my email: a@b.com", "my username: alice"]);
}

#[test]
fn response_with_null_payload_and_error_is_domain_error() {
    let body = r#"{"data":{"me":{"me":null,"errors":[{"message":"not found"}]}}}"#;
    let execution = execute(QueryReply::Decoded { status: 200, response: response_of(body) });
    assert_eq!(execution.diagnostics, vec!["Error: not found"]);
    let error = execution.result.err().unwrap();
    assert_eq!(error.kind, ErrorKind::DomainError);
    assert_eq!(error.business_errors.len(), 1);
    assert_eq!(error.business_errors[0].message, "not found");
}

#[test]
fn response_without_data_is_no_data() {
    for body in [r#"{}"#, r#"{"data":null}"#, r#"{"errors":[{"message":"boom"}]}"#] {
        let execution = execute(QueryReply::Decoded { status: 200, response: response_of(body) });
        let error = execution.result.err().unwrap();
        assert_eq!(error.kind, ErrorKind::NoDataInResponse);
    }
}

#[test]
fn response_with_null_username_is_a_payload() {
    let body = r#"{"data":{"me":{"me":{"id":"u9","email":"n@o.pe","username":null},"errors":[]}}}"#;
    let execution = execute(QueryReply::Decoded { status: 200, response: response_of(body) });
    let identity = execution.result.ok().unwrap();
    assert_eq!(identity.username, None);
    let error = success_lines(&identity).err().unwrap();
    assert_eq!(error.kind, ErrorKind::MissingOptionalField);
}

#[test]
fn server_error_with_a_good_body_is_still_transport_error() {
    let body = r#"{"data":{"me":{"me":{"id":"u1","email":"a@b.com","username":"alice"},"errors":[]}}}"#;
    let execution = execute(QueryReply::Decoded { status: 500, response: response_of(body) });
    let error = execution.result.err().unwrap();
    assert_eq!(error.kind, ErrorKind::TransportError);
    assert_eq!(error.causes.layer(0), "HTTP status code 500");
}
