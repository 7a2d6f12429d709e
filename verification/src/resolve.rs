//! Mirroring the registry's image resolution api.
use vstd::prelude::*;
use crate::text::cat3;

verus! {

/// Plugin that mirrors image resolution api's, based on OCI spec endpoints.
pub struct Resolve;

/// `{protocol}://{ns}/v2/{name}/` followed by `tail`; the protocol defaults to `https`.
pub open spec fn api_url(protocol: Option<Seq<char>>, ns: Seq<char>, name: Seq<char>, tail: Seq<char>) -> Seq<char> {
    let p = match protocol {
        Some(p) => p,
        None => "https"@,
    };
    p + "://"@ + ns + "/v2/"@ + name + "/"@ + tail
}

/// Builds [`api_url`].
pub fn api_url_exec(protocol: Option<&str>, ns: &str, name: &str, tail: &str) -> (s: String)
    ensures
        s@ == api_url(crate::hosts_config::opt_view(protocol), ns@, name@, tail@),
{
    let p = match protocol {
        Some(p) => p,
        None => "https",
    };
    let mut s = cat3(p, "://", ns);
    s.append("/v2/");
    s.append(name);
    s.append("/");
    s.append(tail);
    s
}

impl Resolve {
    /// The manifest api the resolution is mirrored from.
    pub fn manifest_api(protocol: Option<&str>, ns: &str, repo: &str, reference: &str) -> (s: String)
        ensures
            s@ == api_url(crate::hosts_config::opt_view(protocol), ns@, repo@, "manifests/"@ + reference@),
    {
        let tail = crate::text::cat("manifests/", reference);
        api_url_exec(protocol, ns, repo, tail.as_str())
    }

    /// The accept header of the resolution: the `resolve` value when set,
    /// else the accept header of the original request.
    pub fn accept_header(resolve: Option<String>, accept: String) -> (a: String)
        ensures
            a@ == (match resolve {
                Some(r) => r@,
                None => accept@,
            }),
    {
        match resolve {
            Some(r) => r,
            None => accept,
        }
    }
}

} // verus!
