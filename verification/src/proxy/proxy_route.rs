//! Proxy routes: which registry api paths the proxy serves, with which
//! method, and how the repository name is read from a matched path.
use vstd::prelude::*;
use crate::http::HttpMethod;
use crate::text::{replace_all, trim_suffix_all, has_suffix, replace_str, trim_end_matches};

verus! {

/// A registry api resource the proxy can route.
pub trait RouteParameters {
    /// The route path pattern.
    spec fn route_path() -> Seq<char>;

    /// The resource ident.
    spec fn route_ident() -> Seq<char>;

    /// Returns the route path pattern.
    fn path() -> (p: &'static str)
        ensures
            p@ == Self::route_path();

    /// Returns the resource ident for this route.
    fn ident() -> (i: &'static str)
        ensures
            i@ == Self::route_ident();
}

/// Route plugin to handle registry manifest requests.
pub struct Manifests;

/// Route plugin to handle registry download blob requests.
pub struct Blobs;

/// Route plugin to handle registry blob uploads.
pub struct BlobsUploads;

impl RouteParameters for Manifests {
    open spec fn route_path() -> Seq<char> {
        "/:repo<[a-zA-Z0-9/_-]+(?:manifests)>/:reference"@
    }

    open spec fn route_ident() -> Seq<char> {
        "manifests"@
    }

    fn path() -> (p: &'static str) {
        "/:repo<[a-zA-Z0-9/_-]+(?:manifests)>/:reference"
    }

    fn ident() -> (i: &'static str) {
        "manifests"
    }
}

impl RouteParameters for Blobs {
    open spec fn route_path() -> Seq<char> {
        "/:repo<[a-zA-Z0-9/_-]+(?:blobs)>/:reference"@
    }

    open spec fn route_ident() -> Seq<char> {
        "blobs"@
    }

    fn path() -> (p: &'static str) {
        "/:repo<[a-zA-Z0-9/_-]+(?:blobs)>/:reference"
    }

    fn ident() -> (i: &'static str) {
        "blobs"
    }
}

impl RouteParameters for BlobsUploads {
    open spec fn route_path() -> Seq<char> {
        "/:repo<[a-zA-Z0-9/_-]+(?:blobs/uploads)>/"@
    }

    open spec fn route_ident() -> Seq<char> {
        "blobs_uploads"@
    }

    fn path() -> (p: &'static str) {
        "/:repo<[a-zA-Z0-9/_-]+(?:blobs/uploads)>/"
    }

    fn ident() -> (i: &'static str) {
        "blobs_uploads"
    }
}

/// The repository of a matched route path: the resource's path form (its
/// ident with `_` read as `/`) and then any `/` are trimmed from the end.
pub open spec fn route_repo(matched: Seq<char>, ident: Seq<char>) -> Seq<char> {
    trim_suffix_all(trim_suffix_all(matched, replace_all(ident, "_"@, "/"@)), "/"@)
}

/// Reads the repository from the `repo` path parameter matched by the
/// route of `R`.
pub fn repo_of<R: RouteParameters>(matched: &str) -> (repo: String)
    ensures
        repo@ == route_repo(matched@, R::route_ident()),
{
    proof {
        reveal_strlit("_");
        reveal_strlit("/");
    }
    let form = replace_str(R::ident(), "_", "/");
    let trimmed = trim_end_matches(matched, form.as_str());
    trim_end_matches(trimmed.as_str(), "/")
}

/// A trimmed string no longer ends with the (non-empty) pattern.
pub proof fn lemma_trimmed_has_no_suffix(s: Seq<char>, p: Seq<char>)
    requires
        p.len() > 0,
    ensures
        !has_suffix(trim_suffix_all(s, p), p),
    decreases s.len(),
{
    if has_suffix(s, p) {
        lemma_trimmed_has_no_suffix(s.take(s.len() - p.len()), p);
    }
}

/// The repository read from a matched route path never ends with `/`.
pub proof fn lemma_route_repo_unslashed(matched: Seq<char>, ident: Seq<char>)
    ensures
        !has_suffix(route_repo(matched, ident), "/"@),
{
    reveal_strlit("/");
    lemma_trimmed_has_no_suffix(trim_suffix_all(matched, replace_all(ident, "_"@, "/"@)), "/"@);
}

/// A route of the proxy for one resource.
pub struct ProxyRoute {
    /// Upstream namespace.
    pub ns: String,
    /// Method to proxy.
    pub method: Option<HttpMethod>,
    /// Workspace operation to execute before completing the response.
    pub operation: Option<String>,
}

/// The method that a route attribute key stands for (`0` CONNECT,
/// `1` DELETE, `2` GET, `3` HEAD, `4` OPTIONS, `5` PATCH, `6` POST, `7` PUT,
/// `8` TRACE).
pub open spec fn method_of_key(key: usize) -> Option<HttpMethod> {
    if key == 0 {
        Some(HttpMethod::Connect)
    } else if key == 1 {
        Some(HttpMethod::Delete)
    } else if key == 2 {
        Some(HttpMethod::Get)
    } else if key == 3 {
        Some(HttpMethod::Head)
    } else if key == 4 {
        Some(HttpMethod::Options)
    } else if key == 5 {
        Some(HttpMethod::Patch)
    } else if key == 6 {
        Some(HttpMethod::Post)
    } else if key == 7 {
        Some(HttpMethod::Put)
    } else if key == 8 {
        Some(HttpMethod::Trace)
    } else {
        None
    }
}

/// Methods a route can be served with.
pub open spec fn servable_method(m: HttpMethod) -> bool {
    m == HttpMethod::Get || m == HttpMethod::Post || m == HttpMethod::Put || m == HttpMethod::Head || m
        == HttpMethod::Delete
}

impl ProxyRoute {
    /// A route for `ns` with no method and no operation yet.
    pub fn new(ns: String) -> (r: ProxyRoute)
        ensures
            r.ns == ns,
            r.method is None,
            r.operation is None,
    {
        ProxyRoute { ns, method: None, operation: None }
    }

    /// Returns true if this route can be routed: it has a method and an operation.
    pub fn can_route(&self) -> (b: bool)
        ensures
            b == (self.method is Some && self.operation is Some),
    {
        self.method.is_some() && self.operation.is_some()
    }

    /// The route that a method attribute (by its key) adds: this route with
    /// that method and `operation`.
    pub fn with_method(&self, key: usize, operation: String) -> (r: ProxyRoute)
        ensures
            r.ns@ == self.ns@,
            r.method == method_of_key(key),
            r.operation == Some(operation),
    {
        let method = match key {
            0 => Some(HttpMethod::Connect),
            1 => Some(HttpMethod::Delete),
            2 => Some(HttpMethod::Get),
            3 => Some(HttpMethod::Head),
            4 => Some(HttpMethod::Options),
            5 => Some(HttpMethod::Patch),
            6 => Some(HttpMethod::Post),
            7 => Some(HttpMethod::Put),
            8 => Some(HttpMethod::Trace),
            _ => None,
        };
        ProxyRoute { ns: self.ns.clone(), method, operation: Some(operation) }
    }

    /// Whether this route's method is one a route can be served with (GET,
    /// POST, PUT, HEAD, DELETE).
    pub fn is_servable(&self) -> (b: bool)
        ensures
            b == (self.method matches Some(m) && servable_method(m)),
    {
        match self.method {
            Some(HttpMethod::Get) | Some(HttpMethod::Post) | Some(HttpMethod::Put) | Some(
                HttpMethod::Head,
            ) | Some(HttpMethod::Delete) => true,
            _ => false,
        }
    }
}

} // verus!

verus! {

/// The route attribute keys name the methods in order: `0` CONNECT,
/// `1` DELETE, `2` GET, `3` HEAD (the `.head` attribute), `4` OPTIONS,
/// `5` PATCH, `6` POST, `7` PUT, `8` TRACE; no two keys name the same
/// method, and any other key names none.
pub proof fn lemma_route_key_table(key: usize, other: usize)
    ensures
        method_of_key(key) == (match key {
            0 => Some(HttpMethod::Connect),
            1 => Some(HttpMethod::Delete),
            2 => Some(HttpMethod::Get),
            3 => Some(HttpMethod::Head),
            4 => Some(HttpMethod::Options),
            5 => Some(HttpMethod::Patch),
            6 => Some(HttpMethod::Post),
            7 => Some(HttpMethod::Put),
            8 => Some(HttpMethod::Trace),
            _ => None::<HttpMethod>,
        }),
        key <= 8 && other <= 8 && method_of_key(key) == method_of_key(other) ==> key == other,
{
}

} // verus!
