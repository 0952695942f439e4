//! The authenticator: the password-grant token exchange.
//!
//! The request to the token endpoint is the caller's work. This module
//! makes out what to ask for and judges the answer.

use crate::discovery::{ProviderMetadata, ProviderMetadataView};
use crate::error::{failure, ClientError, ClientErrorView, ErrorKind};
use crate::report::CauseChain;
use vstd::prelude::*;

verus! {

/// The `grant_type` of the Resource Owner Password Credentials grant.
pub const GRANT_TYPE: &'static str = "password";

/// One token-endpoint request of the password grant. The client secret and
/// the password are confidential: no report of this library holds them.
pub struct TokenRequest {
    pub token_endpoint: String,
    pub client_id: String,
    pub client_secret: String,
    pub username: String,
    pub password: String,
}

/// The mathematical content of a `TokenRequest`.
pub ghost struct TokenRequestView {
    pub token_endpoint: Seq<char>,
    pub grant_type: Seq<char>,
    pub client_id: Seq<char>,
    pub client_secret: Seq<char>,
    pub username: Seq<char>,
    pub password: Seq<char>,
}

impl View for TokenRequest {
    type V = TokenRequestView;

    open spec fn view(&self) -> TokenRequestView {
        TokenRequestView {
            token_endpoint: self.token_endpoint@,
            grant_type: GRANT_TYPE@,
            client_id: self.client_id@,
            client_secret: self.client_secret@,
            username: self.username@,
            password: self.password@,
        }
    }
}

/// How the request to the token endpoint ended.
pub enum TokenReply {
    /// A successful token response, with its `access_token` field if it has
    /// one. Token type, expiry, refresh token and scopes are not kept.
    Response { access_token: Option<String> },
    /// A network error or a non-success status, with the chain of causes.
    Failure(CauseChain),
}

/// The mathematical content of a `TokenReply`.
pub ghost enum TokenReplyView {
    Response { access_token: Option<Seq<char>> },
    Failure(Seq<Seq<char>>),
}

impl View for TokenReply {
    type V = TokenReplyView;

    open spec fn view(&self) -> TokenReplyView {
        match self {
            TokenReply::Response { access_token } => TokenReplyView::Response {
                access_token: access_token.deep_view(),
            },
            TokenReply::Failure(causes) => TokenReplyView::Failure(causes@),
        }
    }
}

/// An opaque bearer token. It is a secret and appears in no report.
pub struct AccessToken {
    secret: String,
}

impl View for AccessToken {
    type V = Seq<char>;

    closed spec fn view(&self) -> Seq<char> {
        self.secret@
    }
}

impl AccessToken {
    /// Wraps the text of a token.
    pub fn new(secret: String) -> (token: AccessToken)
        ensures
            token@ == secret@,
    {
        AccessToken { secret }
    }

    /// The text of the token.
    pub fn secret(&self) -> (text: &String)
        ensures
            text@ == self@,
    {
        &self.secret
    }
}

/// The cause recorded when the provider declares no token endpoint.
pub open spec fn no_token_endpoint_text() -> Seq<char> {
    "the provider metadata declares no token endpoint"@
}

/// The cause recorded when a token response holds no access token.
pub open spec fn no_access_token_text() -> Seq<char> {
    "the token response holds no access_token"@
}

/// The password-grant request for a provider and a set of values: against
/// the discovered token endpoint, or `TokenExchangeFailed` where the
/// provider declares none.
pub open spec fn password_grant(
    metadata: ProviderMetadataView,
    client_id: Seq<char>,
    client_secret: Seq<char>,
    username: Seq<char>,
    password: Seq<char>,
) -> Result<TokenRequestView, ClientErrorView> {
    match metadata.token_endpoint {
        Some(token_endpoint) => Ok(
            TokenRequestView {
                token_endpoint,
                grant_type: GRANT_TYPE@,
                client_id,
                client_secret,
                username,
                password,
            },
        ),
        None => Err(failure(ErrorKind::TokenExchangeFailed, seq![no_token_endpoint_text()])),
    }
}

/// Makes out the single token-endpoint request of the exchange.
pub fn exchange_password(
    metadata: &ProviderMetadata,
    client_id: &str,
    client_secret: &str,
    username: &str,
    password: &str,
) -> (step: Result<TokenRequest, ClientError>)
    ensures
        step.is_ok() == metadata@.token_endpoint.is_some(),
        step matches Ok(request) ==> password_grant(
            metadata@,
            client_id@,
            client_secret@,
            username@,
            password@,
        ) == Ok::<TokenRequestView, ClientErrorView>(request@),
        step matches Err(error) ==> password_grant(
            metadata@,
            client_id@,
            client_secret@,
            username@,
            password@,
        ) == Err::<TokenRequestView, ClientErrorView>(error@),
{
    match &metadata.token_endpoint {
        Some(token_endpoint) => Ok(
            TokenRequest {
                token_endpoint: token_endpoint.clone(),
                client_id: String::from_str(client_id),
                client_secret: String::from_str(client_secret),
                username: String::from_str(username),
                password: String::from_str(password),
            },
        ),
        None => Err(
            ClientError::with_cause(
                ErrorKind::TokenExchangeFailed,
                String::from_str("the provider metadata declares no token endpoint"),
            ),
        ),
    }
}

/// What a token reply means: the access token as it arrived, or
/// `TokenExchangeFailed`, for a response without one and for a failed
/// request alike.
pub open spec fn exchange_outcome(reply: TokenReplyView) -> Result<Seq<char>, ClientErrorView> {
    match reply {
        TokenReplyView::Response { access_token: Some(secret) } => Ok(secret),
        TokenReplyView::Response { access_token: None } => Err(
            failure(ErrorKind::TokenExchangeFailed, seq![no_access_token_text()]),
        ),
        TokenReplyView::Failure(causes) => Err(failure(ErrorKind::TokenExchangeFailed, causes)),
    }
}

/// Closes the exchange with the reply of the token endpoint.
pub fn conclude_exchange(reply: TokenReply) -> (outcome: Result<AccessToken, ClientError>)
    ensures
        outcome.is_ok() == (reply@ matches TokenReplyView::Response { access_token: Some(_) }),
        outcome matches Ok(token) ==> exchange_outcome(reply@) == Ok::<
            Seq<char>,
            ClientErrorView,
        >(token@),
        outcome matches Err(error) ==> exchange_outcome(reply@) == Err::<
            Seq<char>,
            ClientErrorView,
        >(error@),
{
    match reply {
        TokenReply::Response { access_token: Some(secret) } => Ok(AccessToken::new(secret)),
        TokenReply::Response { access_token: None } => Err(
            ClientError::with_cause(
                ErrorKind::TokenExchangeFailed,
                String::from_str("the token response holds no access_token"),
            ),
        ),
        TokenReply::Failure(causes) => Err(
            ClientError::new(ErrorKind::TokenExchangeFailed, causes),
        ),
    }
}

/// A token response that lacks the access token fails the exchange, and so
/// does every failed request: only a response that holds one succeeds.
pub proof fn lemma_exchange_fails_without_token(reply: TokenReplyView)
    requires
        !(reply matches TokenReplyView::Response { access_token: Some(_) }),
    ensures
        exchange_outcome(reply) is Err,
        exchange_outcome(reply)->Err_0.kind == ErrorKind::TokenExchangeFailed,
{
}

} // verus!
