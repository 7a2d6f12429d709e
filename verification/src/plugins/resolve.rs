//! Resolving a digest from a cached registry response.
use vstd::prelude::*;
use crate::error::{Error, ErrorKind};

verus! {

/// Plugin that mirrors image resolution api's, based on OCI spec endpoints.
pub struct Resolve;

impl Resolve {
    /// The digest to save to state: the `docker-content-digest` of the
    /// cached response; without one, a recoverable error that passes the
    /// response through.
    pub fn digest_from_cache(digest: Option<&str>) -> (r: Result<String, Error>)
        ensures
            match digest {
                Some(d) => r matches Ok(s) && s@ == d@,
                None => r matches Err(e) && e.kind == ErrorKind::Recoverable && e.message@
                    == "skip - missing digest from cached result, passing response through"@,
            },
    {
        match digest {
            Some(d) => Ok(String::from_str(d)),
            None => Err(
                Error::recoverable_error(
                    "skip - missing digest from cached result, passing response through",
                ),
            ),
        }
    }
}

} // verus!
