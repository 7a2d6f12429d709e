//! The tags api of the proxy.
use vstd::prelude::*;
use crate::text::{trim_end_matches, trim_suffix_all};

verus! {

/// Query parameters of a tags request.
pub struct TagsAPIParams {
    pub ns: String,
}

/// The repository whose tags are listed: the matched name with any
/// trailing `/tags` removed.
pub fn tags_repository(name: &str) -> (repo: String)
    ensures
        repo@ == trim_suffix_all(name@, "/tags"@),
{
    trim_end_matches(name, "/tags")
}

} // verus!
