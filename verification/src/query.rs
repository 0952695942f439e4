//! The typed query executor: the `Me` query, its request and the meaning
//! of its response.
//!
//! Sending the request and decoding the body are the caller's work. This
//! module makes out the request and judges the decoded response.

use crate::error::{failure, BusinessError, ClientError, ClientErrorView, ErrorKind};
use crate::report::CauseChain;
use crate::transport::{default_headers, AuthenticatedClient, AuthenticatedClientView, Header};
use vstd::prelude::*;

verus! {

/// The name of the one operation in scope.
pub const OPERATION_NAME: &'static str = "MeQuery";

/// The document of the `Me` query.
pub const QUERY_DOCUMENT: &'static str =
    "query MeQuery {\n  me {\n    me {\n      id\n      email\n      username\n    }\n    errors {\n      message\n    }\n  }\n}\n";

/// The variables of the `Me` query: none.
pub struct Variables {}

/// The envelope that goes out as the body of the request.
pub struct QueryBody {
    pub variables: Variables,
    pub query: &'static str,
    pub operation_name: &'static str,
}

/// The mathematical content of a `QueryBody`: the document and the name of
/// the operation. The variable set is empty.
pub ghost struct QueryBodyView {
    pub query: Seq<char>,
    pub operation_name: Seq<char>,
}

impl View for QueryBody {
    type V = QueryBodyView;

    open spec fn view(&self) -> QueryBodyView {
        QueryBodyView { query: self.query@, operation_name: self.operation_name@ }
    }
}

/// The `Me` query: a fixed document, an empty variable set and a fixed
/// shape of the response.
pub struct MeQuery;

/// The envelope of the `Me` query.
pub open spec fn me_query_body() -> QueryBodyView {
    QueryBodyView { query: QUERY_DOCUMENT@, operation_name: OPERATION_NAME@ }
}

impl MeQuery {
    /// The envelope of the query for the given variables.
    pub fn build_query(variables: Variables) -> (body: QueryBody)
        ensures
            body@ == me_query_body(),
    {
        QueryBody { variables, query: QUERY_DOCUMENT, operation_name: OPERATION_NAME }
    }
}

/// One HTTP POST of a query.
pub struct QueryRequest {
    pub endpoint: String,
    pub headers: Vec<Header>,
    pub body: QueryBody,
}

/// The mathematical content of a `QueryRequest`.
pub ghost struct QueryRequestView {
    pub endpoint: Seq<char>,
    pub headers: Seq<(Seq<char>, Seq<char>)>,
    pub body: QueryBodyView,
}

impl View for QueryRequest {
    type V = QueryRequestView;

    open spec fn view(&self) -> QueryRequestView {
        QueryRequestView {
            endpoint: self.endpoint@,
            headers: self.headers.deep_view(),
            body: self.body@,
        }
    }
}

/// The request that a client sends to an endpoint for the `Me` query.
pub open spec fn me_request(
    client: AuthenticatedClientView,
    endpoint: Seq<char>,
) -> QueryRequestView {
    QueryRequestView { endpoint, headers: default_headers(client), body: me_query_body() }
}

/// Makes out the POST of the `Me` query to `endpoint`. The client is left
/// as it was: each request made out from it carries the same headers.
pub fn prepare_query(
    client: &AuthenticatedClient,
    endpoint: &str,
    variables: Variables,
) -> (request: QueryRequest)
    ensures
        request@ == me_request(client@, endpoint@),
{
    QueryRequest {
        endpoint: String::from_str(endpoint),
        headers: client.request_headers(),
        body: MeQuery::build_query(variables),
    }
}

/// The domain object of the `Me` query.
pub struct Identity {
    pub id: String,
    pub email: String,
    pub username: Option<String>,
}

/// The mathematical content of an `Identity`.
pub ghost struct IdentityView {
    pub id: Seq<char>,
    pub email: Seq<char>,
    pub username: Option<Seq<char>>,
}

impl View for Identity {
    type V = IdentityView;

    open spec fn view(&self) -> IdentityView {
        IdentityView { id: self.id@, email: self.email@, username: self.username.deep_view() }
    }
}

/// The `me` field of the response data: the payload, which is there
/// exactly when the query succeeded at the domain level, and the business
/// errors in the order in which the server sent them.
pub struct MeResult {
    pub me: Option<Identity>,
    pub errors: Vec<BusinessError>,
}

/// The mathematical content of a `MeResult`.
pub ghost struct MeResultView {
    pub me: Option<IdentityView>,
    pub errors: Seq<Seq<char>>,
}

impl View for MeResult {
    type V = MeResultView;

    open spec fn view(&self) -> MeResultView {
        MeResultView {
            me: match self.me {
                Some(identity) => Some(identity@),
                None => None,
            },
            errors: self.errors.deep_view(),
        }
    }
}

/// The `data` field of the response.
pub struct ResponseData {
    pub me: MeResult,
}

/// The decoded response envelope.
pub struct QueryResponse {
    pub data: Option<ResponseData>,
}

impl View for QueryResponse {
    type V = Option<MeResultView>;

    open spec fn view(&self) -> Option<MeResultView> {
        match self.data {
            Some(data) => Some(data.me@),
            None => None,
        }
    }
}

/// How the POST of the query ended.
pub enum QueryReply {
    /// No response arrived, with the chain of causes.
    Failure(CauseChain),
    /// A response arrived whose body is no response envelope.
    Undecodable { status: u16, causes: CauseChain },
    /// A response arrived and its body was decoded.
    Decoded { status: u16, response: QueryResponse },
}

/// The mathematical content of a `QueryReply`.
pub ghost enum QueryReplyView {
    Failure(Seq<Seq<char>>),
    Undecodable { status: u16, causes: Seq<Seq<char>> },
    Decoded { status: u16, response: Option<MeResultView> },
}

impl View for QueryReply {
    type V = QueryReplyView;

    open spec fn view(&self) -> QueryReplyView {
        match self {
            QueryReply::Failure(causes) => QueryReplyView::Failure(causes@),
            QueryReply::Undecodable { status, causes } => QueryReplyView::Undecodable {
                status: *status,
                causes: causes@,
            },
            QueryReply::Decoded { status, response } => QueryReplyView::Decoded {
                status: *status,
                response: response@,
            },
        }
    }
}

/// Whether an HTTP status is a success status.
pub open spec fn is_success(status: u16) -> bool {
    200 <= status <= 299
}

/// The decimal digit `d` as a character.
pub open spec fn digit(d: int) -> char {
    if d == 0 {
        '0'
    } else if d == 1 {
        '1'
    } else if d == 2 {
        '2'
    } else if d == 3 {
        '3'
    } else if d == 4 {
        '4'
    } else if d == 5 {
        '5'
    } else if d == 6 {
        '6'
    } else if d == 7 {
        '7'
    } else if d == 8 {
        '8'
    } else {
        '9'
    }
}

/// The decimal numeral of `n`, without leading zeros.
pub open spec fn decimal(n: nat) -> Seq<char>
    decreases n,
{
    if n < 10 {
        seq![digit(n as int)]
    } else {
        decimal(n / 10).push(digit((n % 10) as int))
    }
}

/// The cause that names a non-success status.
pub open spec fn status_cause(status: u16) -> Seq<char> {
    "HTTP status code "@ + decimal(status as nat)
}

/// The line that reports one business error.
pub open spec fn diagnostic_line(message: Seq<char>) -> Seq<char> {
    "Error: "@ + message
}

/// What a query reply means.
///
/// A reply without a response, with a non-success status or with a body
/// that is no envelope is a `TransportError`; the status is judged before
/// the body. An envelope without data is `NoDataInResponse`. Data without
/// the payload is a `DomainError` that carries the business errors. A
/// payload is the result, whether business errors came with it or not.
pub open spec fn execution_result(reply: QueryReplyView) -> Result<IdentityView, ClientErrorView> {
    match reply {
        QueryReplyView::Failure(causes) => Err(failure(ErrorKind::TransportError, causes)),
        QueryReplyView::Undecodable { status, causes } => if is_success(status) {
            Err(failure(ErrorKind::TransportError, causes))
        } else {
            Err(failure(ErrorKind::TransportError, seq![status_cause(status)]))
        },
        QueryReplyView::Decoded { status, response } => if !is_success(status) {
            Err(failure(ErrorKind::TransportError, seq![status_cause(status)]))
        } else {
            match response {
                None => Err(failure(ErrorKind::NoDataInResponse, Seq::empty())),
                Some(result) => match result.me {
                    Some(identity) => Ok(identity),
                    None => Err(
                        ClientErrorView {
                            kind: ErrorKind::DomainError,
                            causes: Seq::empty(),
                            business_errors: result.errors,
                        },
                    ),
                },
            }
        },
    }
}

/// The business errors that a reply surfaces: those of a decoded response
/// with a success status and data, in the order of the server.
pub open spec fn surfaced_errors(reply: QueryReplyView) -> Seq<Seq<char>> {
    match reply {
        QueryReplyView::Decoded { status, response: Some(result) } => if is_success(status) {
            result.errors
        } else {
            Seq::empty()
        },
        _ => Seq::empty(),
    }
}

/// The diagnostic lines of a reply: one for each surfaced business error.
pub open spec fn execution_diagnostics(reply: QueryReplyView) -> Seq<Seq<char>> {
    surfaced_errors(reply).map_values(|message: Seq<char>| diagnostic_line(message))
}

/// The outcome of an execution: the lines to report, and the payload or
/// the failure.
pub struct Execution {
    pub diagnostics: Vec<String>,
    pub result: Result<Identity, ClientError>,
}

impl Execution {
    /// The payload or the failure, as mathematical content.
    pub open spec fn result_view(&self) -> Result<IdentityView, ClientErrorView> {
        match self.result {
            Ok(identity) => Ok(identity@),
            Err(error) => Err(error@),
        }
    }
}

fn digit_text(d: u16) -> (text: &'static str)
    requires
        d < 10,
    ensures
        text@ == seq![digit(d as int)],
{
    proof {
        reveal_strlit("0");
        reveal_strlit("1");
        reveal_strlit("2");
        reveal_strlit("3");
        reveal_strlit("4");
        reveal_strlit("5");
        reveal_strlit("6");
        reveal_strlit("7");
        reveal_strlit("8");
        reveal_strlit("9");
    }
    let text = if d == 0 {
        "0"
    } else if d == 1 {
        "1"
    } else if d == 2 {
        "2"
    } else if d == 3 {
        "3"
    } else if d == 4 {
        "4"
    } else if d == 5 {
        "5"
    } else if d == 6 {
        "6"
    } else if d == 7 {
        "7"
    } else if d == 8 {
        "8"
    } else {
        "9"
    };
    assert(text@ =~= seq![digit(d as int)]);
    text
}

/// The decimal numeral of a status.
pub fn decimal_text(n: u16) -> (text: String)
    ensures
        text@ == decimal(n as nat),
    decreases n,
{
    if n < 10 {
        String::from_str(digit_text(n))
    } else {
        let mut text = decimal_text(n / 10);
        text.append(digit_text(n % 10));
        assert(text@ =~= decimal((n / 10) as nat).push(digit((n % 10) as int)));
        text
    }
}

fn status_failure(status: u16) -> (error: ClientError)
    ensures
        error@ == failure(ErrorKind::TransportError, seq![status_cause(status)]),
{
    let mut cause = String::from_str("HTTP status code ");
    cause.append(decimal_text(status).as_str());
    ClientError::with_cause(ErrorKind::TransportError, cause)
}

fn diagnostics_of(errors: &Vec<BusinessError>) -> (lines: Vec<String>)
    ensures
        lines.deep_view() == errors.deep_view().map_values(
            |message: Seq<char>| diagnostic_line(message),
        ),
{
    let mut lines: Vec<String> = Vec::new();
    let mut i: usize = 0;
    while i < errors.len()
        invariant
            i <= errors.len(),
            lines.len() == i,
            forall|j: int|
                0 <= j < i ==> (#[trigger] lines[j])@ == diagnostic_line(errors[j].message@),
        decreases errors.len() - i,
    {
        let mut line = String::from_str("Error: ");
        line.append(errors[i].message.as_str());
        lines.push(line);
        i = i + 1;
    }
    assert(lines.deep_view() =~= errors.deep_view().map_values(
        |message: Seq<char>| diagnostic_line(message),
    ));
    lines
}

/// Judges the reply to the `Me` query.
pub fn execute(reply: QueryReply) -> (execution: Execution)
    ensures
        execution.result_view() == execution_result(reply@),
        execution.diagnostics.deep_view() == execution_diagnostics(reply@),
{
    let ghost before = reply@;
    let mut diagnostics: Vec<String> = Vec::new();
    assert(diagnostics.deep_view() =~= Seq::<Seq<char>>::empty());
    assert(Seq::<Seq<char>>::empty().map_values(|message: Seq<char>| diagnostic_line(message))
        =~= Seq::<Seq<char>>::empty());
    let result = match reply {
        QueryReply::Failure(causes) => Err(ClientError::new(ErrorKind::TransportError, causes)),
        QueryReply::Undecodable { status, causes } => {
            if 200 <= status && status <= 299 {
                Err(ClientError::new(ErrorKind::TransportError, causes))
            } else {
                Err(status_failure(status))
            }
        },
        QueryReply::Decoded { status, response } => {
            if !(200 <= status && status <= 299) {
                Err(status_failure(status))
            } else {
                match response.data {
                    None => Err(ClientError::bare(ErrorKind::NoDataInResponse)),
                    Some(data) => {
                        diagnostics = diagnostics_of(&data.me.errors);
                        match data.me.me {
                            Some(identity) => Ok(identity),
                            None => Err(
                                ClientError {
                                    kind: ErrorKind::DomainError,
                                    causes: CauseChain::new(),
                                    business_errors: data.me.errors,
                                },
                            ),
                        }
                    },
                }
            }
        },
    };
    Execution { diagnostics, result }
}

/// The lines of a successful run: the id, the email and the username.
pub open spec fn output_lines(identity: IdentityView) -> Result<Seq<Seq<char>>, ClientErrorView> {
    match identity.username {
        Some(username) => Ok(
            seq![
                "my id: "@ + identity.id,
                "my email: "@ + identity.email,
                "my username: "@ + username,
            ],
        ),
        None => Err(failure(ErrorKind::MissingOptionalField, Seq::empty())),
    }
}

/// Makes out the three lines of output for a payload. A payload without a
/// username fails with `MissingOptionalField`: no line stands for it.
pub fn success_lines(identity: &Identity) -> (lines: Result<Vec<String>, ClientError>)
    ensures
        lines.is_ok() == identity@.username.is_some(),
        lines matches Ok(text) ==> output_lines(identity@) == Ok::<
            Seq<Seq<char>>,
            ClientErrorView,
        >(text.deep_view()),
        lines matches Err(error) ==> output_lines(identity@) == Err::<
            Seq<Seq<char>>,
            ClientErrorView,
        >(error@),
{
    match &identity.username {
        Some(username) => {
            let mut id_line = String::from_str("my id: ");
            id_line.append(identity.id.as_str());
            let mut email_line = String::from_str("my email: ");
            email_line.append(identity.email.as_str());
            let mut username_line = String::from_str("my username: ");
            username_line.append(username.as_str());
            let mut text: Vec<String> = Vec::new();
            text.push(id_line);
            text.push(email_line);
            text.push(username_line);
            assert(text.deep_view() =~= seq![
                "my id: "@ + identity.id@,
                "my email: "@ + identity.email@,
                "my username: "@ + username@,
            ]);
            Ok(text)
        },
        None => Err(ClientError::bare(ErrorKind::MissingOptionalField)),
    }
}

/// A non-success status is a `TransportError`, whatever the body holds.
pub proof fn lemma_status_decides_before_body(reply: QueryReplyView)
    requires
        reply matches QueryReplyView::Undecodable { status, .. } ==> !is_success(status),
        reply matches QueryReplyView::Decoded { status, .. } ==> !is_success(status),
    ensures
        execution_result(reply) is Err,
        execution_result(reply)->Err_0.kind == ErrorKind::TransportError,
        execution_diagnostics(reply).len() == 0,
{
}

/// The business errors are reported one line each, in the order of the
/// server, none dropped and none repeated.
pub proof fn lemma_diagnostics_keep_order(reply: QueryReplyView, i: int)
    requires
        0 <= i < surfaced_errors(reply).len(),
    ensures
        execution_diagnostics(reply).len() == surfaced_errors(reply).len(),
        execution_diagnostics(reply)[i] == diagnostic_line(surfaced_errors(reply)[i]),
{
}

/// The payload is returned exactly when the response holds it: a success
/// status, data, and in it the payload, with or without business errors.
pub proof fn lemma_payload_iff_present(reply: QueryReplyView)
    ensures
        execution_result(reply) is Ok <==> (reply matches QueryReplyView::Decoded {
            status,
            response: Some(result),
        } && is_success(status) && result.me is Some),
        execution_result(reply) matches Err(error) ==> (error.kind == ErrorKind::DomainError
            ==> error.business_errors == surfaced_errors(reply)),
{
}

} // verus!
