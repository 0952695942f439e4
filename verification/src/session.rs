//! One run of the client, as a state machine.
//!
//! A run makes three round trips, one after the other: discovery, the token
//! exchange and the query. The caller performs each and hands back how it
//! ended; the run decides what comes next. Nothing is retried: the first
//! failure ends the run.

use crate::config::{Credentials, CredentialsView};
use crate::discovery::{
    begin_discovery, conclude_discovery, discovery_opening, discovery_outcome,
    issuer_url_accepted, DiscoveryReply, DiscoveryReplyView, DiscoveryRequest,
};
use crate::error::{
    failure, report_text, ClientError, ClientErrorView, ErrorKind, EXIT_FAILURE, EXIT_SUCCESS,
};
use crate::query::{
    execute, execution_diagnostics, execution_result, me_request, output_lines, prepare_query,
    success_lines, QueryReply, QueryReplyView, QueryRequest, QueryRequestView, Variables,
};
use crate::token::{
    conclude_exchange, exchange_outcome, exchange_password, password_grant, TokenReply,
    TokenReplyView, TokenRequest, TokenRequestView,
};
use crate::transport::{build_client, client_for, header_text_allowed};
use vstd::prelude::*;

verus! {

/// Where a run stands.
#[derive(Clone, Copy, Debug, PartialEq, Eq, Structural)]
pub enum Stage {
    /// The discovery document has been asked for.
    Discovering,
    /// The access token has been asked for.
    Exchanging,
    /// The query has been sent.
    Querying,
    /// The run is over, in success or in failure.
    Finished,
}

/// A run in progress.
pub struct Run {
    stage: Stage,
    credentials: Credentials,
}

/// The mathematical content of a `Run`.
pub ghost struct RunView {
    pub stage: Stage,
    pub credentials: CredentialsView,
}

impl View for Run {
    type V = RunView;

    closed spec fn view(&self) -> RunView {
        RunView { stage: self.stage, credentials: self.credentials@ }
    }
}

/// What the caller reports back to a run.
pub enum Event {
    /// How the fetch of the discovery document ended.
    Discovery(DiscoveryReply),
    /// How the request to the token endpoint ended.
    Token(TokenReply),
    /// How the POST of the query ended.
    Query(QueryReply),
}

/// The mathematical content of an `Event`.
pub ghost enum EventView {
    Discovery(DiscoveryReplyView),
    Token(TokenReplyView),
    Query(QueryReplyView),
}

impl View for Event {
    type V = EventView;

    open spec fn view(&self) -> EventView {
        match self {
            Event::Discovery(reply) => EventView::Discovery(reply@),
            Event::Token(reply) => EventView::Token(reply@),
            Event::Query(reply) => EventView::Query(reply@),
        }
    }
}

/// What a run asks of the caller.
pub enum Action {
    /// Fetch the discovery document of the issuer.
    Discover(DiscoveryRequest),
    /// Send the password-grant request to the token endpoint.
    RequestToken(TokenRequest),
    /// POST the query.
    Post(QueryRequest),
    /// Write the lines to the standard output and leave with the status.
    Exit { code: i32, lines: Vec<String> },
    /// Nothing: the event answered no pending request.
    Nothing,
}

/// The mathematical content of an `Action`.
pub ghost enum ActionView {
    Discover(Seq<char>),
    RequestToken(TokenRequestView),
    Post(QueryRequestView),
    Exit { code: i32, lines: Seq<Seq<char>> },
    Nothing,
}

impl View for Action {
    type V = ActionView;

    open spec fn view(&self) -> ActionView {
        match self {
            Action::Discover(request) => ActionView::Discover(request@),
            Action::RequestToken(request) => ActionView::RequestToken(request@),
            Action::Post(request) => ActionView::Post(request@),
            Action::Exit { code, lines } => ActionView::Exit {
                code: *code,
                lines: lines.deep_view(),
            },
            Action::Nothing => ActionView::Nothing,
        }
    }
}

/// The end of a run in failure: the diagnostics so far, then the report of
/// the error, and the failure status.
pub open spec fn abort(
    credentials: CredentialsView,
    diagnostics: Seq<Seq<char>>,
    error: ClientErrorView,
) -> (RunView, ActionView) {
    (
        RunView { stage: Stage::Finished, credentials },
        ActionView::Exit { code: EXIT_FAILURE, lines: diagnostics.push(report_text(error)) },
    )
}

/// The end of a run in success: the diagnostics, then the output, and the
/// success status.
pub open spec fn complete(
    credentials: CredentialsView,
    diagnostics: Seq<Seq<char>>,
    output: Seq<Seq<char>>,
) -> (RunView, ActionView) {
    (
        RunView { stage: Stage::Finished, credentials },
        ActionView::Exit { code: EXIT_SUCCESS, lines: diagnostics + output },
    )
}

/// How a run opens, given what opening discovery leads to.
pub open spec fn opening(
    credentials: CredentialsView,
    step: Result<Seq<char>, ClientErrorView>,
) -> (RunView, ActionView) {
    match step {
        Ok(issuer_url) => (
            RunView { stage: Stage::Discovering, credentials },
            ActionView::Discover(issuer_url),
        ),
        Err(error) => abort(credentials, Seq::empty(), error),
    }
}

/// The step of a run after the discovery reply.
pub open spec fn after_discovery(credentials: CredentialsView, reply: DiscoveryReplyView) -> (
    RunView,
    ActionView,
) {
    match discovery_outcome(reply) {
        Err(error) => abort(credentials, Seq::empty(), error),
        Ok(metadata) => match password_grant(
            metadata,
            credentials.client_id,
            credentials.client_secret,
            credentials.username,
            credentials.password,
        ) {
            Err(error) => abort(credentials, Seq::empty(), error),
            Ok(request) => (
                RunView { stage: Stage::Exchanging, credentials },
                ActionView::RequestToken(request),
            ),
        },
    }
}

/// The step of a run after the token reply.
pub open spec fn after_exchange(credentials: CredentialsView, reply: TokenReplyView) -> (
    RunView,
    ActionView,
) {
    match exchange_outcome(reply) {
        Err(error) => abort(credentials, Seq::empty(), error),
        Ok(token) => if header_text_allowed(token) {
            (
                RunView { stage: Stage::Querying, credentials },
                ActionView::Post(me_request(client_for(token), credentials.api_url)),
            )
        } else {
            abort(
                credentials,
                Seq::empty(),
                failure(ErrorKind::InvalidTokenEncoding, Seq::empty()),
            )
        },
    }
}

/// The step of a run after the query reply.
pub open spec fn after_query(credentials: CredentialsView, reply: QueryReplyView) -> (
    RunView,
    ActionView,
) {
    match execution_result(reply) {
        Err(error) => abort(credentials, execution_diagnostics(reply), error),
        Ok(identity) => match output_lines(identity) {
            Err(error) => abort(credentials, execution_diagnostics(reply), error),
            Ok(output) => complete(credentials, execution_diagnostics(reply), output),
        },
    }
}

/// The step of a run on an event. An event that answers the pending
/// request moves the run on; any other leaves it where it is.
pub open spec fn next(run: RunView, event: EventView) -> (RunView, ActionView) {
    match (run.stage, event) {
        (Stage::Discovering, EventView::Discovery(reply)) => after_discovery(
            run.credentials,
            reply,
        ),
        (Stage::Exchanging, EventView::Token(reply)) => after_exchange(run.credentials, reply),
        (Stage::Querying, EventView::Query(reply)) => after_query(run.credentials, reply),
        _ => (run, ActionView::Nothing),
    }
}

fn fail(
    credentials: Credentials,
    diagnostics: Vec<String>,
    error: ClientError,
) -> (step: (Run, Action))
    ensures
        (step.0@, step.1@) == abort(credentials@, diagnostics.deep_view(), error@),
{
    let mut lines = diagnostics;
    lines.push(error.report());
    assert(lines.deep_view() =~= diagnostics.deep_view().push(report_text(error@)));
    (Run { stage: Stage::Finished, credentials }, Action::Exit { code: EXIT_FAILURE, lines })
}

impl Run {
    /// Where the run stands.
    pub fn stage(&self) -> (stage: Stage)
        ensures
            stage == self@.stage,
    {
        self.stage
    }

    /// Whether the run is over.
    pub fn is_finished(&self) -> (over: bool)
        ensures
            over == (self@.stage == Stage::Finished),
    {
        match self.stage {
            Stage::Finished => true,
            _ => false,
        }
    }

    /// Opens a run with the outcome of opening discovery for its issuer.
    pub fn launch(
        credentials: Credentials,
        step: Result<DiscoveryRequest, ClientError>,
    ) -> (first: (Run, Action))
        ensures
            (first.0@, first.1@) == opening(
                credentials@,
                match step {
                    Ok(request) => Ok(request@),
                    Err(error) => Err(error@),
                },
            ),
    {
        match step {
            Ok(request) => (
                Run { stage: Stage::Discovering, credentials },
                Action::Discover(request),
            ),
            Err(error) => {
                let diagnostics: Vec<String> = Vec::new();
                assert(diagnostics.deep_view() =~= Seq::<Seq<char>>::empty());
                fail(credentials, diagnostics, error)
            },
        }
    }

    /// Opens a run: the issuer URL is checked, and either its discovery
    /// document is asked for or the run ends with `InvalidIssuerUrl`.
    pub fn start(credentials: Credentials) -> (first: (Run, Action))
        ensures
            (first.0@, first.1@) == opening(
                credentials@,
                discovery_opening(credentials@.issuer_url),
            ),
    {
        let step = begin_discovery(credentials.issuer_url.as_str());
        Run::launch(credentials, step)
    }

    /// Moves the run on with how the pending request ended.
    pub fn advance(self, event: Event) -> (step: (Run, Action))
        ensures
            (step.0@, step.1@) == next(self@, event@),
    {
        let Run { stage, credentials } = self;
        match (stage, event) {
            (Stage::Discovering, Event::Discovery(reply)) => {
                let diagnostics: Vec<String> = Vec::new();
                assert(diagnostics.deep_view() =~= Seq::<Seq<char>>::empty());
                match conclude_discovery(reply) {
                    Err(error) => fail(credentials, diagnostics, error),
                    Ok(metadata) => match exchange_password(
                        &metadata,
                        credentials.client_id.as_str(),
                        credentials.client_secret.as_str(),
                        credentials.username.as_str(),
                        credentials.password.as_str(),
                    ) {
                        Err(error) => fail(credentials, diagnostics, error),
                        Ok(request) => (
                            Run { stage: Stage::Exchanging, credentials },
                            Action::RequestToken(request),
                        ),
                    },
                }
            },
            (Stage::Exchanging, Event::Token(reply)) => {
                let diagnostics: Vec<String> = Vec::new();
                assert(diagnostics.deep_view() =~= Seq::<Seq<char>>::empty());
                match conclude_exchange(reply) {
                    Err(error) => fail(credentials, diagnostics, error),
                    Ok(token) => match build_client(token) {
                        Err(error) => fail(credentials, diagnostics, error),
                        Ok(client) => {
                            let request = prepare_query(
                                &client,
                                credentials.api_url.as_str(),
                                Variables {  },
                            );
                            (Run { stage: Stage::Querying, credentials }, Action::Post(request))
                        },
                    },
                }
            },
            (Stage::Querying, Event::Query(reply)) => {
                let execution = execute(reply);
                let mut lines = execution.diagnostics;
                match execution.result {
                    Err(error) => fail(credentials, lines, error),
                    Ok(identity) => match success_lines(&identity) {
                        Err(error) => fail(credentials, lines, error),
                        Ok(output) => {
                            let ghost diagnostics = lines.deep_view();
                            let mut output = output;
                            let ghost produced = output.deep_view();
                            lines.append(&mut output);
                            assert(lines.deep_view() =~= diagnostics + produced);
                            (
                                Run { stage: Stage::Finished, credentials },
                                Action::Exit { code: EXIT_SUCCESS, lines },
                            )
                        },
                    },
                }
            },
            (stage, _) => (Run { stage, credentials }, Action::Nothing),
        }
    }
}

/// The end is final: a finished run makes no further request and stays as
/// it is, whatever is reported to it. So nothing is ever retried.
pub proof fn lemma_finished_is_final(run: RunView, event: EventView)
    requires
        run.stage == Stage::Finished,
    ensures
        next(run, event) == (run, ActionView::Nothing),
{
}

/// A run moves forward only: a step leaves the stage as it is and asks for
/// nothing, or goes to the stage that follows and asks for its request, or
/// ends the run with an exit. The configuration never changes.
pub proof fn lemma_steps_go_forward(run: RunView, event: EventView)
    ensures
        next(run, event).0.credentials == run.credentials,
        next(run, event).1 is Nothing ==> next(run, event).0 == run,
        next(run, event).1 is Exit <==> (next(run, event).0.stage == Stage::Finished
            && run.stage != Stage::Finished),
        next(run, event).1 is RequestToken <==> (run.stage == Stage::Discovering && next(
            run,
            event,
        ).0.stage == Stage::Exchanging),
        next(run, event).1 is Post <==> (run.stage == Stage::Exchanging && next(
            run,
            event,
        ).0.stage == Stage::Querying),
        !(next(run, event).1 is Discover),
{
}

/// Whether an event is the answer to the query with a payload that holds a
/// username.
pub open spec fn answers_with_username(event: EventView) -> bool {
    match event {
        EventView::Query(reply) => match execution_result(reply) {
            Ok(identity) => identity.username is Some,
            Err(_) => false,
        },
        _ => false,
    }
}

/// A run ends with the success status exactly when the query answered with
/// a payload that holds a username; every other end has the failure status.
pub proof fn lemma_exit_status(run: RunView, event: EventView)
    requires
        next(run, event).1 is Exit,
    ensures
        next(run, event).1->code == EXIT_SUCCESS || next(run, event).1->code == EXIT_FAILURE,
        next(run, event).1->code == EXIT_SUCCESS <==> (run.stage == Stage::Querying
            && answers_with_username(event)),
{
}

/// A failure ends the run with its report as the last line, and with
/// nothing before it but the business errors that the query surfaced.
pub proof fn lemma_failure_is_reported(run: RunView, event: EventView)
    requires
        next(run, event).1 is Exit,
        next(run, event).1->code == EXIT_FAILURE,
    ensures
        next(run, event).1->lines.len() >= 1,
        run.stage != Stage::Querying ==> next(run, event).1->lines.len() == 1,
        event matches EventView::Query(reply) ==> next(run, event).1->lines.drop_last()
            == execution_diagnostics(reply),
{
    if let EventView::Query(reply) = event {
        if run.stage == Stage::Querying {
            let lines = next(run, event).1->lines;
            assert(lines.drop_last() =~= execution_diagnostics(reply));
        }
    }
}

/// A run whose issuer URL is malformed ends at once with the failure
/// status: no request is asked for.
pub proof fn lemma_malformed_issuer_ends_run(credentials: CredentialsView)
    requires
        !issuer_url_accepted(credentials.issuer_url),
    ensures
        opening(credentials, discovery_opening(credentials.issuer_url)).0.stage
            == Stage::Finished,
        opening(credentials, discovery_opening(credentials.issuer_url)).1 is Exit,
        opening(credentials, discovery_opening(credentials.issuer_url)).1->code == EXIT_FAILURE,
        opening(credentials, discovery_opening(credentials.issuer_url)).1->lines.len() == 1,
{
}

/// The secrets stay out of the output: the lines with which a run ends do
/// not depend on its configuration, and where a token cannot be carried
/// they do not depend on the token either.
pub proof fn lemma_output_is_independent_of_secrets(
    stage: Stage,
    first: CredentialsView,
    second: CredentialsView,
    event: EventView,
)
    requires
        next(RunView { stage, credentials: first }, event).1 is Exit,
    ensures
        next(RunView { stage, credentials: second }, event).1 == next(
            RunView { stage, credentials: first },
            event,
        ).1,
        stage == Stage::Exchanging ==> (event matches EventView::Token(
            TokenReplyView::Response { access_token: Some(_) },
        ) ==> next(RunView { stage, credentials: first }, event).1 == ActionView::Exit {
            code: EXIT_FAILURE,
            lines: seq![
                report_text(failure(ErrorKind::InvalidTokenEncoding, Seq::empty())),
            ],
        }),
{
    if stage == Stage::Exchanging {
        if let EventView::Token(TokenReplyView::Response { access_token: Some(token) }) = event {
            let lines = next(RunView { stage, credentials: first }, event).1->lines;
            assert(lines =~= seq![
                report_text(failure(ErrorKind::InvalidTokenEncoding, Seq::empty())),
            ]);
        }
    }
}

} // verus!
