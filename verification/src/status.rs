//! Translation of the platform's registration status codes.

use vstd::prelude::*;

use crate::error::Error;

verus! {

/// Status code the platform reports for a successful registration.
pub const STATUS_SUCCESS: i32 = 0;
/// Status code the platform reports for an invalid service instance name.
pub const STATUS_INVALID_SERVICE_NAME: i32 = 1;
/// Status code the platform reports for a server error.
pub const STATUS_SERVER_ERROR: i32 = 2;
/// Status code the platform reports for a security error.
pub const STATUS_SECURITY_ERROR: i32 = 3;

/// The outcome a registration status code translates to: only
/// `STATUS_SUCCESS` succeeds, the three known rejection codes map
/// one-to-one onto the identically named error variants, and every other
/// code is conservatively `UnknownError`.
pub open spec fn status_outcome(code: i32) -> Result<(), Error> {
    if code == STATUS_SUCCESS {
        Ok(())
    } else if code == STATUS_INVALID_SERVICE_NAME {
        Err(Error::InvalidServiceName)
    } else if code == STATUS_SERVER_ERROR {
        Err(Error::ServerError)
    } else if code == STATUS_SECURITY_ERROR {
        Err(Error::SecurityError)
    } else {
        Err(Error::UnknownError)
    }
}

/// Translates a registration status code into the registrar's outcome.
pub fn translate_status(code: i32) -> (r: Result<(), Error>)
    ensures
        r == status_outcome(code),
{
    if code == STATUS_SUCCESS {
        Ok(())
    } else if code == STATUS_INVALID_SERVICE_NAME {
        Err(Error::InvalidServiceName)
    } else if code == STATUS_SERVER_ERROR {
        Err(Error::ServerError)
    } else if code == STATUS_SECURITY_ERROR {
        Err(Error::SecurityError)
    } else {
        Err(Error::UnknownError)
    }
}

/// Law: the success status code, and only it, yields a successful outcome —
/// a `Service` handle is owed exactly when the platform reports success.
pub proof fn lemma_success_iff_success_code(code: i32)
    ensures
        status_outcome(code) is Ok <==> code == STATUS_SUCCESS,
{
}

/// Law: each known rejection status code maps one-to-one onto the
/// identically named error variant, whatever the registration's instance
/// name, hostname, port or TXT content were (the outcome depends on the
/// code alone).
pub proof fn lemma_known_rejections_one_to_one(code: i32)
    ensures
        status_outcome(code) == Err::<(), Error>(Error::InvalidServiceName) <==> code
            == STATUS_INVALID_SERVICE_NAME,
        status_outcome(code) == Err::<(), Error>(Error::ServerError) <==> code
            == STATUS_SERVER_ERROR,
        status_outcome(code) == Err::<(), Error>(Error::SecurityError) <==> code
            == STATUS_SECURITY_ERROR,
{
}

/// Law: a status code outside the four known values yields `UnknownError`,
/// never a success.
pub proof fn lemma_unknown_code_fails(code: i32)
    requires
        code != STATUS_SUCCESS,
        code != STATUS_INVALID_SERVICE_NAME,
        code != STATUS_SERVER_ERROR,
        code != STATUS_SECURITY_ERROR,
    ensures
        status_outcome(code) == Err::<(), Error>(Error::UnknownError),
{
}

} // verus!
