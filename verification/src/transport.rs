//! The authenticated transport: a client handle that puts a fixed bearer
//! token and a fixed user agent on every request.

use crate::error::{failure, ClientError, ErrorKind};
use crate::token::AccessToken;
use vstd::prelude::*;

verus! {

/// The user agent that identifies this client.
pub const USER_AGENT: &'static str = "graphql-rust/0.10.0";

/// The scheme that precedes the token in the `Authorization` header.
pub const BEARER_PREFIX: &'static str = "Bearer ";

/// The name of the header that carries the token.
pub const AUTHORIZATION: &'static str = "authorization";

/// The name of the header that carries the user agent.
pub const USER_AGENT_HEADER: &'static str = "user-agent";

/// Whether a character may stand in an HTTP header value: a tab, or
/// anything from the space upwards but the delete character.
pub open spec fn header_char_allowed(c: char) -> bool {
    c == '\t' || (c as u32 >= 32 && c as u32 != 127)
}

/// Whether a text may be an HTTP header value: each character may.
pub open spec fn header_text_allowed(text: Seq<char>) -> bool {
    forall|i: int| 0 <= i < text.len() ==> header_char_allowed(#[trigger] text[i])
}

/// Calls `reqwest::header::HeaderValue::from_str`. Trusted: it succeeds
/// exactly when no byte of the text is a control byte other than the tab,
/// that is, when every character is a tab or lies from the space upwards
/// and is not the delete character.
#[verifier::external_body]
fn header_value_accepts(text: &str) -> (accepted: bool)
    ensures
        accepted == header_text_allowed(text@),
{
    reqwest::header::HeaderValue::from_str(text).is_ok()
}

/// One HTTP header.
pub struct Header {
    pub name: String,
    pub value: String,
}

impl View for Header {
    type V = (Seq<char>, Seq<char>);

    open spec fn view(&self) -> (Seq<char>, Seq<char>) {
        (self.name@, self.value@)
    }
}

impl DeepView for Header {
    type V = (Seq<char>, Seq<char>);

    open spec fn deep_view(&self) -> (Seq<char>, Seq<char>) {
        (self.name@, self.value@)
    }
}

/// An HTTP transport handle with a fixed `Authorization` header and a fixed
/// user agent. It has no state beyond the two.
pub struct AuthenticatedClient {
    user_agent: String,
    authorization: String,
}

/// The mathematical content of an `AuthenticatedClient`.
pub ghost struct AuthenticatedClientView {
    pub user_agent: Seq<char>,
    pub authorization: Seq<char>,
}

impl View for AuthenticatedClient {
    type V = AuthenticatedClientView;

    closed spec fn view(&self) -> AuthenticatedClientView {
        AuthenticatedClientView {
            user_agent: self.user_agent@,
            authorization: self.authorization@,
        }
    }
}

/// The value of the `Authorization` header for a token.
pub open spec fn bearer(token: Seq<char>) -> Seq<char> {
    BEARER_PREFIX@ + token
}

/// The client that carries `token`.
pub open spec fn client_for(token: Seq<char>) -> AuthenticatedClientView {
    AuthenticatedClientView { user_agent: USER_AGENT@, authorization: bearer(token) }
}

/// The headers that a client puts on each of its requests.
pub open spec fn default_headers(client: AuthenticatedClientView) -> Seq<(Seq<char>, Seq<char>)> {
    seq![(USER_AGENT_HEADER@, client.user_agent), (AUTHORIZATION@, client.authorization)]
}

/// The values of the headers called `name`, in order.
pub open spec fn values_of(headers: Seq<(Seq<char>, Seq<char>)>, name: Seq<char>) -> Seq<
    Seq<char>,
>
    decreases headers.len(),
{
    if headers.len() == 0 {
        Seq::empty()
    } else if headers.last().0 == name {
        values_of(headers.drop_last(), name).push(headers.last().1)
    } else {
        values_of(headers.drop_last(), name)
    }
}

/// The scheme and the token are a header value exactly when the token is.
pub proof fn lemma_bearer_allowed(token: Seq<char>)
    ensures
        header_text_allowed(bearer(token)) == header_text_allowed(token),
{
    reveal_strlit("Bearer ");
    let whole = bearer(token);
    let prefix = BEARER_PREFIX@;
    assert(prefix.len() == 7);
    if header_text_allowed(token) {
        assert forall|i: int| 0 <= i < whole.len() implies header_char_allowed(
            #[trigger] whole[i],
        ) by {
            if i >= 7 {
                assert(whole[i] == token[i - 7]);
            }
        }
    }
    if header_text_allowed(whole) {
        assert forall|i: int| 0 <= i < token.len() implies header_char_allowed(
            #[trigger] token[i],
        ) by {
            assert(token[i] == whole[i + 7]);
        }
    }
}

/// Builds the client for a token. Nothing is sent. The one failure is a
/// token with a character that no header value may hold.
pub fn build_client(token: AccessToken) -> (built: Result<AuthenticatedClient, ClientError>)
    ensures
        built.is_ok() == header_text_allowed(token@),
        built matches Ok(client) ==> client@ == client_for(token@),
        built matches Err(error) ==> error@ == failure(
            ErrorKind::InvalidTokenEncoding,
            Seq::empty(),
        ),
{
    let mut authorization = String::from_str(BEARER_PREFIX);
    authorization.append(token.secret().as_str());
    proof {
        lemma_bearer_allowed(token@);
    }
    if header_value_accepts(authorization.as_str()) {
        Ok(AuthenticatedClient { user_agent: String::from_str(USER_AGENT), authorization })
    } else {
        Err(ClientError::bare(ErrorKind::InvalidTokenEncoding))
    }
}

impl AuthenticatedClient {
    /// The user agent of every request.
    pub fn user_agent(&self) -> (text: &String)
        ensures
            text@ == self@.user_agent,
    {
        &self.user_agent
    }

    /// The value of the `Authorization` header of every request.
    pub fn authorization(&self) -> (text: &String)
        ensures
            text@ == self@.authorization,
    {
        &self.authorization
    }

    /// The headers of a request from this client. The client is left as it
    /// was, so every request from it carries the same ones.
    pub fn request_headers(&self) -> (headers: Vec<Header>)
        ensures
            headers.deep_view() == default_headers(self@),
    {
        let mut headers: Vec<Header> = Vec::new();
        headers.push(
            Header { name: String::from_str(USER_AGENT_HEADER), value: self.user_agent.clone() },
        );
        headers.push(
            Header { name: String::from_str(AUTHORIZATION), value: self.authorization.clone() },
        );
        assert(headers.deep_view() =~= default_headers(self@));
        headers
    }
}

/// Each request of a client carries exactly one `Authorization` header, and
/// its value is the client's.
pub proof fn lemma_one_authorization_header(client: AuthenticatedClientView)
    ensures
        values_of(default_headers(client), AUTHORIZATION@) == seq![client.authorization],
{
    reveal_strlit("authorization");
    reveal_strlit("user-agent");
    let headers = default_headers(client);
    let first = headers.drop_last();
    assert(USER_AGENT_HEADER@.len() != AUTHORIZATION@.len());
    assert(first.len() == 1 && first.last() == headers[0]);
    assert(first.drop_last().len() == 0);
    assert(values_of(first.drop_last(), AUTHORIZATION@) =~= Seq::<Seq<char>>::empty());
    assert(values_of(first, AUTHORIZATION@) =~= Seq::<Seq<char>>::empty());
    assert(values_of(headers, AUTHORIZATION@) =~= seq![client.authorization]);
}

/// For a token that a header can carry, every request of the client built
/// for it has one `Authorization` header, equal to `Bearer ` and the token.
pub proof fn lemma_requests_carry_bearer_token(token: Seq<char>)
    ensures
        values_of(default_headers(client_for(token)), AUTHORIZATION@) == seq![bearer(token)],
{
    lemma_one_authorization_header(client_for(token));
}

} // verus!
