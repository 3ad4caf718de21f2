//! The registrar's failure taxonomy.

use vstd::prelude::*;

verus! {

/// A failure reported by the service registrar.
///
/// Exactly one variant describes each failure: either an underlying platform
/// call itself failed (`PlatformError`, carrying the platform's diagnostic
/// text), or the registration completed with one of the three known
/// rejection status codes, or it completed with a status code outside the
/// known set (`UnknownError` — an unrecognized code is conservatively a
/// failure, never a silent success).
#[derive(Debug)]
pub enum Error {
    /// An underlying platform call failed; carries the platform's diagnostic.
    PlatformError(String),
    /// Registration was rejected: the service instance name is invalid.
    InvalidServiceName,
    /// Registration was rejected: the server reported an error.
    ServerError,
    /// Registration was rejected: a security error occurred.
    SecurityError,
    /// Registration finished with a status code outside the known set.
    UnknownError,
}

impl Error {
    /// The text `message` returns, at the specification level.
    pub open spec fn message_spec(&self) -> Seq<char> {
        match self {
            Error::PlatformError(d) => d@,
            Error::InvalidServiceName => "Cannot register service: Invalid service name"@,
            Error::ServerError => "Cannot register service: Server error"@,
            Error::SecurityError => "Cannot register service: Security error"@,
            Error::UnknownError => "Cannot register service: Unknown error"@,
        }
    }

    /// A human-readable description of the failure; for a platform failure
    /// it is the platform's own diagnostic text.
    pub fn message(&self) -> (r: String)
        ensures
            r@ == self.message_spec(),
    {
        match self {
            Error::PlatformError(d) => d.clone(),
            Error::InvalidServiceName => "Cannot register service: Invalid service name".to_owned(),
            Error::ServerError => "Cannot register service: Server error".to_owned(),
            Error::SecurityError => "Cannot register service: Security error".to_owned(),
            Error::UnknownError => "Cannot register service: Unknown error".to_owned(),
        }
    }

    /// The platform diagnostic underlying this error, where one exists:
    /// only a `PlatformError` carries a cause to chain.
    pub fn diagnostic(&self) -> (r: Option<&String>)
        ensures
            self matches Error::PlatformError(d) ==> (r matches Some(s) && s@ == d@),
            !(self is PlatformError) ==> r is None,
    {
        match self {
            Error::PlatformError(d) => Some(d),
            _ => None,
        }
    }
}

} // verus!
