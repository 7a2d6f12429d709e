//! HTTP methods and status codes as the proxy decides on them.
use vstd::prelude::*;

verus! {

/// Request methods the proxy distinguishes.
#[derive(Debug, PartialEq, Eq, Clone, Copy)]
pub enum HttpMethod {
    Connect,
    Delete,
    Get,
    Head,
    Options,
    Patch,
    Post,
    Put,
    Trace,
    /// Any extension method.
    Other,
}

pub const STATUS_OK: u16 = 200;
pub const STATUS_UNAUTHORIZED: u16 = 401;
pub const STATUS_NOT_FOUND: u16 = 404;
pub const STATUS_METHOD_NOT_ALLOWED: u16 = 405;
pub const STATUS_INTERNAL_SERVER_ERROR: u16 = 500;
pub const STATUS_SERVICE_UNAVAILABLE: u16 = 503;

/// A 2xx status.
pub open spec fn is_success_status(status: u16) -> bool {
    200 <= status <= 299
}

/// A 4xx status.
pub open spec fn is_client_error_status(status: u16) -> bool {
    400 <= status <= 499
}

/// True for a 2xx status.
pub fn is_success(status: u16) -> (b: bool)
    ensures
        b == is_success_status(status),
{
    200 <= status && status <= 299
}

/// True for a 4xx status.
pub fn is_client_error(status: u16) -> (b: bool)
    ensures
        b == is_client_error_status(status),
{
    400 <= status && status <= 499
}

/// The status with which the proxy fails softly, so that the runtime falls
/// back to the upstream server.
pub fn soft_fail() -> (status: u16)
    ensures
        status == STATUS_SERVICE_UNAVAILABLE,
{
    STATUS_SERVICE_UNAVAILABLE
}

} // verus!
