//! `/login`: storing registry credentials for later requests.
use vstd::prelude::*;
use crate::error::{Error, ErrorKind};
use crate::http::HttpMethod;
use crate::proxy::config::{response_status, error_kind, status_for};

verus! {

/// Body of a login request.
pub struct LoginBody {
    pub host: String,
    pub username: String,
    pub password: String,
}

/// Response to a login request.
pub struct LoginResponse {
    /// True if existing login credentials were overwritten.
    pub overwritten: bool,
    /// Error for this response.
    pub error: Option<Error>,
}

impl LoginResponse {
    /// Returns an error response.
    pub fn error(err: Error) -> (r: LoginResponse)
        ensures
            !r.overwritten,
            r.error == Some(err),
    {
        LoginResponse { overwritten: false, error: Some(err) }
    }

    /// Returns the response to a completed login.
    pub fn completed(overwritten: bool) -> (r: LoginResponse)
        ensures
            r.overwritten == overwritten,
            r.error is None,
    {
        LoginResponse { overwritten, error: None }
    }

    /// Status this response is sent with: OK without an error,
    /// METHOD_NOT_ALLOWED for an invalid operation, NOT_FOUND for a
    /// recoverable error, INTERNAL_SERVER_ERROR otherwise.
    pub fn status_code(&self) -> (status: u16)
        ensures
            status == response_status(true, error_kind(self.error)),
    {
        status_for(true, &self.error)
    }
}

impl LoginBody {
    /// Only PUT may store a login; any other method is an invalid operation.
    pub fn check_method(method: HttpMethod) -> (r: Result<(), Error>)
        ensures
            r is Ok <==> method == HttpMethod::Put,
            r matches Err(e) ==> e.kind == ErrorKind::InvalidOperation && e.message@
                == "Only PUT method is supportted"@,
    {
        match method {
            HttpMethod::Put => Ok(()),
            _ => Err(Error::invalid_operation("Only PUT method is supportted")),
        }
    }
}

/// The response a failed login request is answered with.
pub fn login_error_response(result: Result<LoginResponse, Error>) -> (r: LoginResponse)
    ensures
        match result {
            Ok(resp) => r == resp,
            Err(e) => !r.overwritten && r.error == Some(e),
        },
{
    match result {
        Ok(resp) => resp,
        Err(e) => LoginResponse::error(e),
    }
}

} // verus!
