//! An authenticated API client, as a library of decisions.
//!
//! The client obtains an access token from an OpenID Connect identity
//! provider with the Resource Owner Password Credentials grant and uses it
//! for one typed GraphQL query. Every network round trip is made by the
//! caller; this library decides what to send, judges what came back and
//! renders failures.

pub mod config;
pub mod discovery;
pub mod error;
pub mod query;
pub mod report;
pub mod session;
pub mod token;
pub mod transport;

pub use crate::query::MeQuery;
