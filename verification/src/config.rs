//! The configuration of a run: the coordinates of the identity provider,
//! the user's credentials and the endpoint of the API.

use crate::error::{failure, ClientError, ClientErrorView, ErrorKind};
use vstd::prelude::*;

verus! {

/// The six values that a run needs. They are read once and never change.
pub struct Credentials {
    pub client_id: String,
    pub client_secret: String,
    pub username: String,
    pub password: String,
    pub issuer_url: String,
    pub api_url: String,
}

/// The mathematical content of `Credentials`.
pub ghost struct CredentialsView {
    pub client_id: Seq<char>,
    pub client_secret: Seq<char>,
    pub username: Seq<char>,
    pub password: Seq<char>,
    pub issuer_url: Seq<char>,
    pub api_url: Seq<char>,
}

impl View for Credentials {
    type V = CredentialsView;

    open spec fn view(&self) -> CredentialsView {
        CredentialsView {
            client_id: self.client_id@,
            client_secret: self.client_secret@,
            username: self.username@,
            password: self.password@,
            issuer_url: self.issuer_url@,
            api_url: self.api_url@,
        }
    }
}

/// What a configuration source holds: each value, where it is set.
pub ghost struct SourceView {
    pub client_id: Option<Seq<char>>,
    pub client_secret: Option<Seq<char>>,
    pub username: Option<Seq<char>>,
    pub password: Option<Seq<char>>,
    pub issuer_url: Option<Seq<char>>,
    pub api_url: Option<Seq<char>>,
}

/// The request to set the first value that a source lacks, in the order
/// in which the values are needed.
pub open spec fn first_missing(source: SourceView) -> Option<Seq<char>> {
    if source.client_id is None {
        Some("set CLIENT_ID"@)
    } else if source.client_secret is None {
        Some("set CLIENT_SECRET"@)
    } else if source.username is None {
        Some("set USERNAME"@)
    } else if source.password is None {
        Some("set PASSWORD"@)
    } else if source.issuer_url is None {
        Some("set OIDC_URL"@)
    } else if source.api_url is None {
        Some("set API_URL"@)
    } else {
        None
    }
}

/// The credentials that a source yields: all six values as they stand, or
/// `MissingConfiguration` naming the first that is absent.
pub open spec fn credentials_of(source: SourceView) -> Result<CredentialsView, ClientErrorView> {
    match first_missing(source) {
        Some(request) => Err(failure(ErrorKind::MissingConfiguration, seq![request])),
        None => Ok(
            CredentialsView {
                client_id: source.client_id->0,
                client_secret: source.client_secret->0,
                username: source.username->0,
                password: source.password->0,
                issuer_url: source.issuer_url->0,
                api_url: source.api_url->0,
            },
        ),
    }
}

fn missing(request: &str) -> (error: ClientError)
    ensures
        error@ == failure(ErrorKind::MissingConfiguration, seq![request@]),
{
    ClientError::with_cause(ErrorKind::MissingConfiguration, String::from_str(request))
}

impl Credentials {
    /// Gathers the six values of a source. All are required.
    pub fn from_source(
        client_id: Option<String>,
        client_secret: Option<String>,
        username: Option<String>,
        password: Option<String>,
        issuer_url: Option<String>,
        api_url: Option<String>,
    ) -> (gathered: Result<Credentials, ClientError>)
        ensures
            gathered.is_ok() == (client_id.is_some() && client_secret.is_some()
                && username.is_some() && password.is_some() && issuer_url.is_some()
                && api_url.is_some()),
            gathered matches Ok(credentials) ==> credentials_of(
                SourceView {
                    client_id: client_id.deep_view(),
                    client_secret: client_secret.deep_view(),
                    username: username.deep_view(),
                    password: password.deep_view(),
                    issuer_url: issuer_url.deep_view(),
                    api_url: api_url.deep_view(),
                },
            ) == Ok::<CredentialsView, ClientErrorView>(credentials@),
            gathered matches Err(error) ==> credentials_of(
                SourceView {
                    client_id: client_id.deep_view(),
                    client_secret: client_secret.deep_view(),
                    username: username.deep_view(),
                    password: password.deep_view(),
                    issuer_url: issuer_url.deep_view(),
                    api_url: api_url.deep_view(),
                },
            ) == Err::<CredentialsView, ClientErrorView>(error@),
    {
        let client_id = match client_id {
            Some(value) => value,
            None => { return Err(missing("set CLIENT_ID")); },
        };
        let client_secret = match client_secret {
            Some(value) => value,
            None => { return Err(missing("set CLIENT_SECRET")); },
        };
        let username = match username {
            Some(value) => value,
            None => { return Err(missing("set USERNAME")); },
        };
        let password = match password {
            Some(value) => value,
            None => { return Err(missing("set PASSWORD")); },
        };
        let issuer_url = match issuer_url {
            Some(value) => value,
            None => { return Err(missing("set OIDC_URL")); },
        };
        let api_url = match api_url {
            Some(value) => value,
            None => { return Err(missing("set API_URL")); },
        };
        Ok(Credentials { client_id, client_secret, username, password, issuer_url, api_url })
    }
}

} // verus!
