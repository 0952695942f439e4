//! Provider discovery: from an issuer URL to the provider's metadata.
//!
//! The fetch of the discovery document is the caller's work. This module
//! decides whether a fetch may be attempted at all and what its outcome
//! means.

use crate::error::{
    failure, headline_text, report_text, ClientError, ClientErrorView, ErrorKind,
};
use crate::report::{layer_prefix, lemma_rendered_holds_each_cause, occurs_in, CauseChain};
use vstd::prelude::*;

verus! {

/// What `openidconnect::IssuerUrl::new` finds wrong with a text: nothing
/// for a well-formed absolute URL, else the URL parser's description of the
/// fault. The answer depends on the text alone.
pub uninterp spec fn issuer_url_fault(url: Seq<char>) -> Option<Seq<char>>;

/// Whether a text is accepted as an issuer URL.
pub open spec fn issuer_url_accepted(url: Seq<char>) -> bool {
    issuer_url_fault(url) is None
}

/// Calls `openidconnect::IssuerUrl::new` on a copy of `url`. Trusted: the
/// result is the fault that the parser reports, in the words of its error,
/// or nothing where it accepts the text.
#[verifier::external_body]
fn parse_issuer_url(url: &str) -> (fault: Option<String>)
    ensures
        fault.deep_view() == issuer_url_fault(url@),
{
    match openidconnect::IssuerUrl::new(url.to_string()) {
        Ok(_) => None,
        Err(fault) => Some(fault.to_string()),
    }
}

/// The instruction to fetch the discovery document of an issuer.
pub struct DiscoveryRequest {
    pub issuer_url: String,
}

impl View for DiscoveryRequest {
    type V = Seq<char>;

    open spec fn view(&self) -> Seq<char> {
        self.issuer_url@
    }
}

/// What the client keeps of a discovery document.
pub struct ProviderMetadata {
    pub issuer: String,
    pub token_endpoint: Option<String>,
}

/// The mathematical content of a `ProviderMetadata`.
pub ghost struct ProviderMetadataView {
    pub issuer: Seq<char>,
    pub token_endpoint: Option<Seq<char>>,
}

impl View for ProviderMetadata {
    type V = ProviderMetadataView;

    open spec fn view(&self) -> ProviderMetadataView {
        ProviderMetadataView {
            issuer: self.issuer@,
            token_endpoint: self.token_endpoint.deep_view(),
        }
    }
}

/// How the fetch of the discovery document ended.
pub enum DiscoveryReply {
    /// The document arrived and was understood.
    Document(ProviderMetadata),
    /// A network error, a non-success status or a malformed document, with
    /// the chain of causes.
    Failure(CauseChain),
}

/// The mathematical content of a `DiscoveryReply`.
pub ghost enum DiscoveryReplyView {
    Document(ProviderMetadataView),
    Failure(Seq<Seq<char>>),
}

impl View for DiscoveryReply {
    type V = DiscoveryReplyView;

    open spec fn view(&self) -> DiscoveryReplyView {
        match self {
            DiscoveryReply::Document(metadata) => DiscoveryReplyView::Document(metadata@),
            DiscoveryReply::Failure(causes) => DiscoveryReplyView::Failure(causes@),
        }
    }
}

/// What the check of an issuer URL leads to: the request for its discovery
/// document, or `InvalidIssuerUrl` with the parser's description as cause.
pub open spec fn request_after_check(issuer_url: Seq<char>, fault: Option<Seq<char>>) -> Result<
    Seq<char>,
    ClientErrorView,
> {
    match fault {
        None => Ok(issuer_url),
        Some(description) => Err(failure(ErrorKind::InvalidIssuerUrl, seq![description])),
    }
}

/// What opening discovery for an issuer URL leads to.
pub open spec fn discovery_opening(issuer_url: Seq<char>) -> Result<Seq<char>, ClientErrorView> {
    request_after_check(issuer_url, issuer_url_fault(issuer_url))
}

/// Turns the parser's finding on `issuer_url` into the next step.
pub fn discovery_request_for(issuer_url: &str, fault: Option<String>) -> (step: Result<
    DiscoveryRequest,
    ClientError,
>)
    ensures
        step.is_ok() == fault.is_none(),
        step matches Ok(request) ==> request_after_check(issuer_url@, fault.deep_view()) == Ok::<
            Seq<char>,
            ClientErrorView,
        >(request@),
        step matches Err(error) ==> request_after_check(issuer_url@, fault.deep_view()) == Err::<
            Seq<char>,
            ClientErrorView,
        >(error@),
{
    match fault {
        None => Ok(DiscoveryRequest { issuer_url: String::from_str(issuer_url) }),
        Some(description) => Err(
            ClientError::with_cause(ErrorKind::InvalidIssuerUrl, description),
        ),
    }
}

/// Opens discovery. A malformed issuer URL fails with `InvalidIssuerUrl`
/// and no request is made out, so nothing goes to the network; a
/// well-formed one yields the request for exactly that issuer.
pub fn begin_discovery(issuer_url: &str) -> (step: Result<DiscoveryRequest, ClientError>)
    ensures
        step.is_ok() == issuer_url_accepted(issuer_url@),
        step matches Ok(request) ==> discovery_opening(issuer_url@) == Ok::<
            Seq<char>,
            ClientErrorView,
        >(request@),
        step matches Err(error) ==> discovery_opening(issuer_url@) == Err::<
            Seq<char>,
            ClientErrorView,
        >(error@),
{
    let fault = parse_issuer_url(issuer_url);
    discovery_request_for(issuer_url, fault)
}

/// A malformed issuer URL never leads to a request: opening discovery for
/// it fails with `InvalidIssuerUrl`.
pub proof fn lemma_malformed_issuer_is_rejected(issuer_url: Seq<char>)
    requires
        !issuer_url_accepted(issuer_url),
    ensures
        discovery_opening(issuer_url) is Err,
        discovery_opening(issuer_url)->Err_0.kind == ErrorKind::InvalidIssuerUrl,
{
}

/// What a discovery reply means: the metadata as it arrived, or
/// `DiscoveryFailed` carrying the causes unchanged.
pub open spec fn discovery_outcome(reply: DiscoveryReplyView) -> Result<
    ProviderMetadataView,
    ClientErrorView,
> {
    match reply {
        DiscoveryReplyView::Document(metadata) => Ok(metadata),
        DiscoveryReplyView::Failure(causes) => Err(failure(ErrorKind::DiscoveryFailed, causes)),
    }
}

/// Closes discovery with the reply of the fetch.
pub fn conclude_discovery(reply: DiscoveryReply) -> (outcome: Result<ProviderMetadata, ClientError>)
    ensures
        outcome.is_ok() == (reply is Document),
        outcome matches Ok(metadata) ==> discovery_outcome(reply@) == Ok::<
            ProviderMetadataView,
            ClientErrorView,
        >(metadata@),
        outcome matches Err(error) ==> discovery_outcome(reply@) == Err::<
            ProviderMetadataView,
            ClientErrorView,
        >(error@),
{
    match reply {
        DiscoveryReply::Document(metadata) => Ok(metadata),
        DiscoveryReply::Failure(causes) => Err(ClientError::new(ErrorKind::DiscoveryFailed, causes)),
    }
}

/// A fetch that failed, be it by a non-success status, fails discovery with
/// `DiscoveryFailed`, and the report holds the line of each of its causes.
pub proof fn lemma_failed_discovery_reports_cause(causes: Seq<Seq<char>>, i: int)
    requires
        0 <= i < causes.len(),
    ensures
        discovery_outcome(DiscoveryReplyView::Failure(causes)) is Err,
        discovery_outcome(DiscoveryReplyView::Failure(causes))->Err_0.kind
            == ErrorKind::DiscoveryFailed,
        occurs_in(
            layer_prefix() + causes[i],
            report_text(discovery_outcome(DiscoveryReplyView::Failure(causes))->Err_0),
        ),
{
    lemma_rendered_holds_each_cause(headline_text(ErrorKind::DiscoveryFailed), causes, i);
}

/// Discovery has no memory: what it yields depends on the provider's answer
/// alone, so the same answer yields the same metadata each time, as it
/// arrived.
pub proof fn lemma_discovery_is_repeatable(first: DiscoveryReplyView, second: DiscoveryReplyView)
    requires
        first == second,
    ensures
        discovery_outcome(first) == discovery_outcome(second),
        first matches DiscoveryReplyView::Document(metadata) ==> discovery_outcome(second) == Ok::<
            ProviderMetadataView,
            ClientErrorView,
        >(metadata),
{
}

} // verus!
