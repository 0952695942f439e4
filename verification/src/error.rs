//! The error taxonomy of the client.

use crate::report::{render_chain, rendered, CauseChain};
use vstd::prelude::*;

verus! {

/// What went wrong, by stage.
#[derive(Clone, Copy, Debug, PartialEq, Eq, Structural)]
pub enum ErrorKind {
    /// A required configuration value is absent.
    MissingConfiguration,
    /// The issuer URL is not a well-formed absolute URL.
    InvalidIssuerUrl,
    /// The discovery document could not be fetched or understood.
    DiscoveryFailed,
    /// The token endpoint did not yield an access token.
    TokenExchangeFailed,
    /// The access token cannot be carried in an HTTP header value.
    InvalidTokenEncoding,
    /// The query did not complete at the HTTP level.
    TransportError,
    /// The response envelope holds no `data`.
    NoDataInResponse,
    /// The server answered with business errors in place of the payload.
    DomainError,
    /// An optional field that the caller needs is null.
    MissingOptionalField,
}

/// The process exit status after a failure of any kind.
pub const EXIT_FAILURE: i32 = 1;

/// The process exit status after a successful run.
pub const EXIT_SUCCESS: i32 = 0;

/// The first line of the report of each kind, without the `ERROR: ` prefix.
pub open spec fn headline_text(kind: ErrorKind) -> Seq<char> {
    match kind {
        ErrorKind::MissingConfiguration => "Missing configuration"@,
        ErrorKind::InvalidIssuerUrl => "Invalid issuer URL"@,
        ErrorKind::DiscoveryFailed => "Failed to discover OpenID Provider"@,
        ErrorKind::TokenExchangeFailed => "Failed to contact token endpoint"@,
        ErrorKind::InvalidTokenEncoding => "Invalid access token encoding"@,
        ErrorKind::TransportError => "Failed to execute query"@,
        ErrorKind::NoDataInResponse => "No data in response"@,
        ErrorKind::DomainError => "Error found"@,
        ErrorKind::MissingOptionalField => "Missing Username"@,
    }
}

/// The first line of the report of `kind`.
pub fn headline(kind: ErrorKind) -> (text: &'static str)
    ensures
        text@ == headline_text(kind),
{
    match kind {
        ErrorKind::MissingConfiguration => "Missing configuration",
        ErrorKind::InvalidIssuerUrl => "Invalid issuer URL",
        ErrorKind::DiscoveryFailed => "Failed to discover OpenID Provider",
        ErrorKind::TokenExchangeFailed => "Failed to contact token endpoint",
        ErrorKind::InvalidTokenEncoding => "Invalid access token encoding",
        ErrorKind::TransportError => "Failed to execute query",
        ErrorKind::NoDataInResponse => "No data in response",
        ErrorKind::DomainError => "Error found",
        ErrorKind::MissingOptionalField => "Missing Username",
    }
}

/// A domain-level error descriptor that the server sent inside an otherwise
/// successful response.
pub struct BusinessError {
    pub message: String,
}

impl View for BusinessError {
    type V = Seq<char>;

    open spec fn view(&self) -> Seq<char> {
        self.message@
    }
}

impl DeepView for BusinessError {
    type V = Seq<char>;

    open spec fn deep_view(&self) -> Seq<char> {
        self.message@
    }
}

/// A failure of the client: its kind, the chain of underlying causes
/// (outermost first), and the business errors of a `DomainError`.
pub struct ClientError {
    pub kind: ErrorKind,
    pub causes: CauseChain,
    pub business_errors: Vec<BusinessError>,
}

/// The mathematical content of a `ClientError`.
pub ghost struct ClientErrorView {
    pub kind: ErrorKind,
    pub causes: Seq<Seq<char>>,
    pub business_errors: Seq<Seq<char>>,
}

impl View for ClientError {
    type V = ClientErrorView;

    open spec fn view(&self) -> ClientErrorView {
        ClientErrorView {
            kind: self.kind,
            causes: self.causes@,
            business_errors: self.business_errors.deep_view(),
        }
    }
}

/// The failure of `kind` with the given causes and no business errors.
pub open spec fn failure(kind: ErrorKind, causes: Seq<Seq<char>>) -> ClientErrorView {
    ClientErrorView { kind, causes, business_errors: Seq::empty() }
}

/// The report of a failure: the headline of its kind, then its causes.
pub open spec fn report_text(error: ClientErrorView) -> Seq<char> {
    rendered(headline_text(error.kind), error.causes)
}

impl ClientError {
    /// A failure of `kind` with the given chain of causes.
    pub fn new(kind: ErrorKind, causes: CauseChain) -> (error: ClientError)
        ensures
            error@ == failure(kind, causes@),
    {
        let error = ClientError { kind, causes, business_errors: Vec::new() };
        assert(error.business_errors.deep_view() =~= Seq::<Seq<char>>::empty());
        error
    }

    /// A failure of `kind` with a single cause.
    pub fn with_cause(kind: ErrorKind, cause: String) -> (error: ClientError)
        ensures
            error@ == failure(kind, seq![cause@]),
    {
        let mut causes = CauseChain::new();
        let _ = causes.record(cause);
        assert(causes@ =~= seq![cause@]);
        ClientError::new(kind, causes)
    }

    /// A failure of `kind` without a recorded cause.
    pub fn bare(kind: ErrorKind) -> (error: ClientError)
        ensures
            error@ == failure(kind, Seq::empty()),
    {
        ClientError::new(kind, CauseChain::new())
    }

    /// Renders the failure for diagnostics: one line for the headline, one
    /// for each cause in turn.
    pub fn report(&self) -> (text: String)
        ensures
            text@ == report_text(self@),
    {
        render_chain(headline(self.kind), &self.causes)
    }
}

} // verus!
