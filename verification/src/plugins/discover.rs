//! Discovering artifacts through the registry referrers api.
use vstd::prelude::*;
use crate::text::cat3;

verus! {

/// Plugin for calling the referrer's api and adding the result to state.
pub struct Discover;

/// The referrers api url for the artifacts of `artifact_type` whose subject
/// is `digest`; the api path defaults to `_oras/artifacts/referrers`.
pub open spec fn referrers_api_url(
    namespace: Seq<char>,
    repo: Seq<char>,
    api: Option<Seq<char>>,
    digest: Seq<char>,
    artifact_type: Seq<char>,
) -> Seq<char> {
    "https://"@ + namespace + "/v2/"@ + repo + "/"@ + match api {
        Some(a) => a,
        None => "_oras/artifacts/referrers"@,
    } + "?digest="@ + digest + "&artifactType="@ + artifact_type
}

impl Discover {
    /// Returns the referrers api url to request.
    pub fn referrers_api(
        namespace: &str,
        repo: &str,
        api: Option<&str>,
        digest: &str,
        artifact_type: &str,
    ) -> (s: String)
        ensures
            s@ == referrers_api_url(
                namespace@,
                repo@,
                crate::hosts_config::opt_view(api),
                digest@,
                artifact_type@,
            ),
    {
        let api = match api {
            Some(a) => a,
            None => "_oras/artifacts/referrers",
        };
        let mut s = cat3("https://", namespace, "/v2/");
        s.append(repo);
        s.append("/");
        s.append(api);
        s.append("?digest=");
        s.append(digest);
        s.append("&artifactType=");
        s.append(artifact_type);
        s
    }
}

} // verus!
