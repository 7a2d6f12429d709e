//! Retrieving a blob upload session id from the registry.
use vstd::prelude::*;
use crate::resolve::{api_url, api_url_exec};

verus! {

/// Retrieves a blob upload session id from the registry.
pub struct PushSession;

impl PushSession {
    /// The endpoint that starts a blob upload session.
    pub fn upload_session_url(protocol: Option<&str>, ns: &str, name: &str) -> (s: String)
        ensures
            s@ == api_url(crate::hosts_config::opt_view(protocol), ns@, name@, "blobs/uploads"@),
    {
        api_url_exec(protocol, ns, name, "blobs/uploads")
    }
}

} // verus!
