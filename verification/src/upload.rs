//! Uploading content to the registry.
use vstd::prelude::*;
use crate::resolve::api_url;
use crate::push_session::PushSession;

verus! {

/// Plugin to upload registry content.
pub struct Upload;

impl Upload {
    /// The endpoint an upload by session id starts at.
    pub fn upload_session_url(protocol: Option<&str>, ns: &str, name: &str) -> (s: String)
        ensures
            s@ == api_url(crate::hosts_config::opt_view(protocol), ns@, name@, "blobs/uploads"@),
    {
        PushSession::upload_session_url(protocol, ns, name)
    }
}

} // verus!
