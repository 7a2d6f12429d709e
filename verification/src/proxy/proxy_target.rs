//! The upstream target of a proxied request: namespace (registry host),
//! repository and object, and the registry urls built from them.
use vstd::prelude::*;
use crate::object::{Object, ObjectModel, lex_object, lexable_object, object_text, object_suffix};
use crate::content::{Descriptor, resource_for, resource_segment};
use crate::error::{Error, ErrorKind};
use crate::text::{cat, cat3, parse_u64, parse_u64_spec, str_eq};
use crate::http::{is_success, is_success_status};

verus! {

/// Name for what `std::path::Path::file_name` gives for a path, as text.
pub uninterp spec fn path_file_name(path: Seq<char>) -> Option<Seq<char>>;

/// Name for what `std::path::Path::parent` gives for a path, as text.
pub uninterp spec fn path_parent(path: Seq<char>) -> Option<Seq<char>>;

/// The last component of `path` (`Path::file_name`), when it has one that is
/// valid UTF-8.
#[verifier::external_body]
fn file_name_of(path: &str) -> (r: Option<String>)
    ensures
        match r {
            Some(f) => path_file_name(path@) == Some(f@),
            None => path_file_name(path@) is None,
        },
{
    std::path::Path::new(path).file_name().and_then(|f| f.to_str()).map(|f| f.to_string())
}

/// `path` without its last component (`Path::parent`), when it has one.
#[verifier::external_body]
fn parent_of(path: &str) -> (r: Option<String>)
    ensures
        match r {
            Some(p) => path_parent(path@) == Some(p@),
            None => path_parent(path@) is None,
        },
{
    std::path::Path::new(path).parent().and_then(|p| p.to_str()).map(|p| p.to_string())
}

/// Name for the host of `uri` as `hyper::Uri` parses it: outer `None` when
/// the text is no uri, inner `None` when the uri has no host.
pub uninterp spec fn uri_host(uri: Seq<char>) -> Option<Option<Seq<char>>>;

/// The host of `uri` (`hyper::Uri::from_str`, then `host`).
#[verifier::external_body]
fn host_of(uri: &str) -> (r: Option<Option<String>>)
    ensures
        uri_host(uri@) == (match r {
            Some(Some(h)) => Some(Some(h@)),
            Some(None) => Some(None::<Seq<char>>),
            None => None,
        }),
{
    uri.parse::<hyper::Uri>().ok().map(|u| u.host().map(String::from))
}

/// Properties of the upstream server a request is proxied to.
pub struct ProxyTarget {
    /// From the request query `ns` parameter: the registry host.
    pub namespace: String,
    /// Repository name.
    pub repo: String,
    /// The reference (tag) or digest of the proxied request.
    pub object: Object,
    /// Repository that the manifest is imported into, when set.
    pub import: Option<String>,
}

pub open spec fn opt_view(o: Option<String>) -> Option<Seq<char>> {
    match o {
        Some(s) => Some(s@),
        None => None,
    }
}

/// `https://{namespace}/v2/{repo}/` followed by `tail`.
pub open spec fn registry_url(namespace: Seq<char>, repo: Seq<char>, tail: Seq<char>) -> Seq<char> {
    "https://"@ + namespace + "/v2/"@ + repo + "/"@ + tail
}

/// The header values a successful HEAD of a manifest or blob answers with
/// make a descriptor: digest, size from the content length, media type.
pub open spec fn descriptor_headers_ok(
    digest: Option<Seq<char>>,
    content_length: Option<Seq<char>>,
    content_type: Option<Seq<char>>,
) -> bool {
    &&& digest is Some
    &&& content_length matches Some(l) && parse_u64_spec(l) is Some
    &&& content_type is Some
}

fn registry_url_exec(namespace: &str, repo: &str, tail: &str) -> (s: String)
    ensures
        s@ == registry_url(namespace@, repo@, tail@),
{
    let mut s = cat3("https://", namespace, "/v2/");
    s.append(repo);
    s.append("/");
    s.append(tail);
    s
}

impl ProxyTarget {
    /// Returns the current object setting.
    pub fn object(&self) -> (o: &Object)
        ensures
            o == &self.object,
    {
        &self.object
    }

    /// Builds a target from the symbols of a runtime context:
    /// `REGISTRY_NAMESPACE`, `REGISTRY_REPO`, then `digest` (taken as a digest
    /// as it is) or `REFERENCE` (lexed; an error object when it does not lex).
    /// Without namespace and repo, the context cannot be proxied.
    pub fn from_symbols(
        namespace: Option<String>,
        repo: Option<String>,
        digest: Option<String>,
        reference: Option<String>,
        import: Option<String>,
    ) -> (r: Result<ProxyTarget, Error>)
        requires
            digest is None && reference is Some ==> lexable_object(reference->0@),
        ensures
            (namespace is Some && repo is Some) <==> r is Ok,
            r matches Ok(t) ==> {
                &&& t.namespace@ == namespace->0@
                &&& t.repo@ == repo->0@
                &&& opt_view(t.import) == opt_view(import)
                &&& t.object@ == (match digest {
                    Some(d) => ObjectModel::Digest(d@),
                    None => match reference {
                        Some(rf) => match lex_object(rf@) {
                            Some(o) => o,
                            None => ObjectModel::Error,
                        },
                        None => ObjectModel::Error,
                    },
                })
            },
            r matches Err(e) ==> e.kind == ErrorKind::InvalidOperation && e.message@
                == "Current context is missing namespace, repo information"@,
    {
        match (namespace, repo) {
            (Some(namespace), Some(repo)) => {
                let object = match digest {
                    Some(d) => Object::Digest(d),
                    None => match reference {
                        Some(rf) => match Object::lex(rf.as_str()) {
                            Some(o) => o,
                            None => Object::Error,
                        },
                        None => Object::Error,
                    },
                };
                Ok(ProxyTarget { namespace, repo, object, import })
            },
            _ => Err(Error::invalid_operation("Current context is missing namespace, repo information")),
        }
    }

    /// Builds a target from the parts of a request uri: the host is the
    /// namespace, the last path component the object and the rest of the
    /// path the repository.
    pub fn from_path_parts(host: &str, parent: String, file_name: &str) -> (t: ProxyTarget)
        requires
            lexable_object(file_name@),
            lex_object(file_name@) is Some,
        ensures
            t.namespace@ == host@,
            t.repo@ == parent@,
            Some(t.object@) == lex_object(file_name@),
            t.import is None,
    {
        let object = match Object::lex(file_name) {
            Some(o) => o,
            None => Object::Error,
        };
        ProxyTarget { namespace: String::from_str(host), repo: parent, object, import: None }
    }

    /// Builds a target from the host and path of a request's uri, as
    /// [`ProxyTarget::from_path_parts`] does with the path's parent and file
    /// name. A request without a host is no input (the caller has one).
    /// What [`ProxyTarget::from_path_parts`] requires of the file name is
    /// tested here first: `None` where the path has no file name or parent,
    /// or the file name is no object the lexer reads.
    pub fn from_request_parts(host: &str, path: &str) -> (r: Option<ProxyTarget>)
        ensures
            r matches Some(t) ==> {
                &&& t.namespace@ == host@
                &&& path_parent(path@) == Some(t.repo@)
                &&& path_file_name(path@) matches Some(f) && lexable_object(f) && Some(t.object@) == lex_object(f)
                &&& t.import is None
            },
            r is None <==> {
                ||| path_file_name(path@) is None
                ||| path_parent(path@) is None
                ||| lex_object(path_file_name(path@)->0) is None
                ||| !lexable_object(path_file_name(path@)->0)
            },
    {
        let name = match file_name_of(path) {
            Some(n) => n,
            None => return None,
        };
        let parent = match parent_of(path) {
            Some(p) => p,
            None => return None,
        };
        if !Self::can_lex(name.as_str()) {
            return None;
        }
        match Object::lex(name.as_str()) {
            Some(_) => Some(Self::from_path_parts(host, parent, name.as_str())),
            None => None,
        }
    }

    /// Tests whether lexing `s` stays within what the object lexer accepts.
    fn can_lex(s: &str) -> (b: bool)
        ensures
            b == lexable_object(s@),
    {
        crate::object::lexable(s)
    }

    /// Returns the blob upload url of the upstream target: the upload
    /// session endpoint `/v2/<name>/blobs/uploads`.
    pub fn blob_upload_url(&self) -> (s: String)
        ensures
            s@ == registry_url(self.namespace@, self.repo@, "blobs/uploads"@),
    {
        registry_url_exec(self.namespace.as_str(), self.repo.as_str(), "blobs/uploads")
    }

    /// Returns a blob url to the upstream target.
    pub fn blob_url(&self) -> (s: String)
        requires
            !(self.object@ is Error),
        ensures
            s@ == registry_url(self.namespace@, self.repo@, "blobs/"@ + object_text(self.object@)),
    {
        let o = self.object.text();
        let tail = cat("blobs/", o.as_str());
        registry_url_exec(self.namespace.as_str(), self.repo.as_str(), tail.as_str())
    }

    /// Returns a referrers url; it does not filter by artifact type.
    pub fn referrers_url(&self) -> (s: String)
        requires
            !(self.object@ is Error),
        ensures
            s@ == registry_url(
                self.namespace@,
                self.repo@,
                "_oras/artifacts/referrers?digest="@ + object_text(self.object@),
            ),
    {
        let o = self.object.text();
        let tail = cat("_oras/artifacts/referrers?digest=", o.as_str());
        registry_url_exec(self.namespace.as_str(), self.repo.as_str(), tail.as_str())
    }

    /// Returns a manifest url to the upstream target; the import repository
    /// replaces the repository when one is set.
    pub fn manifest_url(&self) -> (s: String)
        requires
            !(self.object@ is Error),
        ensures
            s@ == registry_url(
                self.namespace@,
                match self.import {
                    Some(i) => i@,
                    None => self.repo@,
                },
                "manifests/"@ + object_text(self.object@),
            ),
    {
        let repo = match &self.import {
            Some(i) => i.as_str(),
            None => self.repo.as_str(),
        };
        let o = self.object.text();
        let tail = cat("manifests/", o.as_str());
        registry_url_exec(self.namespace.as_str(), repo, tail.as_str())
    }

    /// Returns a manifest url with a specific object to the upstream target.
    pub fn manifest_with(&self, object: &str) -> (s: String)
        ensures
            s@ == registry_url(self.namespace@, self.repo@, "manifests/"@ + object@),
    {
        let tail = cat("manifests/", object);
        registry_url_exec(self.namespace.as_str(), self.repo.as_str(), tail.as_str())
    }

    /// Returns an image reference for this target: `{namespace}/{repo}:{tag}`
    /// or `{namespace}/{repo}@{digest}`.
    pub fn image_reference(&self) -> (s: String)
        requires
            !(self.object@ is Error),
        ensures
            s@ == self.namespace@ + "/"@ + self.repo@ + object_suffix(self.object@),
    {
        let suffix = self.object.suffix();
        let mut s = cat3(self.namespace.as_str(), "/", self.repo.as_str());
        s.append(suffix.as_str());
        s
    }

    /// Returns an image reference for this target w/ a different object.
    pub fn image_reference_with(&self, object: Object) -> (s: String)
        requires
            !(object@ is Error),
        ensures
            s@ == self.namespace@ + "/"@ + self.repo@ + object_suffix(object@),
    {
        let suffix = object.suffix();
        let mut s = cat3(self.namespace.as_str(), "/", self.repo.as_str());
        s.append(suffix.as_str());
        s
    }

    /// Returns the url of content with `media_type` and `digest` in the
    /// upstream target: under `manifests/` for a manifest media type, under
    /// `blobs/` otherwise.
    pub fn content_url(&self, media_type: &str, digest: &str) -> (s: String)
        requires
            resource_segment(media_type@) is Some,
        ensures
            s@ == registry_url(
                self.namespace@,
                self.repo@,
                resource_segment(media_type@)->0 + "/"@ + digest@,
            ),
    {
        let seg = match resource_for(media_type) {
            Some(seg) => seg,
            None => "blobs",
        };
        let tail = cat3(seg, "/", digest);
        registry_url_exec(self.namespace.as_str(), self.repo.as_str(), tail.as_str())
    }

    /// Checks a uri to resolve against this target: `None` when the text is
    /// no uri, else whether its host (the empty host when it has none) is
    /// this target's registry host.
    pub fn check_uri(&self, uri: &str) -> (r: Option<bool>)
        ensures
            r is None <==> uri_host(uri@) is None,
            r matches Some(b) ==> b == (match uri_host(uri@)->0 {
                Some(h) => h == self.namespace@,
                None => self.namespace@.len() == 0,
            }),
    {
        match host_of(uri) {
            None => None,
            Some(Some(h)) => Some(self.targets_host(h.as_str())),
            Some(None) => Some(self.namespace.unicode_len() == 0),
        }
    }

    /// True if `host` is this target's registry host, the only host whose
    /// uris the target resolves.
    pub fn targets_host(&self, host: &str) -> (b: bool)
        ensures
            b == (host@ == self.namespace@),
    {
        str_eq(host, self.namespace.as_str())
    }

    /// The descriptor a HEAD request resolves to: nothing unless the status
    /// is a success, else the digest, content length and content type
    /// headers make the descriptor.
    pub fn resolved_descriptor(
        status: u16,
        digest: Option<&str>,
        content_length: Option<&str>,
        content_type: Option<&str>,
    ) -> (r: Option<Descriptor>)
        requires
            is_success_status(status) ==> descriptor_headers_ok(
                crate::hosts_config::opt_view(digest),
                crate::hosts_config::opt_view(content_length),
                crate::hosts_config::opt_view(content_type),
            ),
        ensures
            is_success_status(status) <==> r is Some,
            r matches Some(d) ==> {
                &&& d.media_type@ == content_type->0@
                &&& d.digest@ == digest->0@
                &&& Some(d.size) == parse_u64_spec(content_length->0@)
                &&& d.artifact_type is None
                &&& d.platform is None
            },
    {
        if !is_success(status) {
            return None;
        }
        let (Some(digest), Some(length), Some(content_type)) = (digest, content_length, content_type) else {
            return None;
        };
        let size = match parse_u64(length) {
            Some(n) => n,
            None => 0,
        };
        Some(Descriptor {
            media_type: String::from_str(content_type),
            artifact_type: None,
            digest: String::from_str(digest),
            size,
            platform: None,
        })
    }
}

} // verus!
