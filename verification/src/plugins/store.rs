//! Storing registry content locally: what content a response carries and
//! the descriptor it is stored under.
use vstd::prelude::*;
use crate::consts::{ORAS_ARTIFACTS_MANIFEST_MEDIA_TYPE, OCI_ARTIFACTS_MANIFEST_MEDIA_TYPE, DOCKER_V1_MANIFEST, DOCKER_V2_MANIFEST, OCI_IMAGE_MANIFEST, DOCKER_MANIFEST_LIST};
use crate::content::Descriptor;
use crate::text::{str_eq, parse_u64, parse_u64_spec};

verus! {

/// Plugin to store registry content locally.
pub struct Store;

/// The kind of content a response holds, by its content type.
#[derive(Debug, PartialEq, Eq, Clone, Copy)]
pub enum StoredContent {
    /// An ORAS or OCI artifact manifest.
    ArtifactManifest,
    /// A docker v1/v2 or OCI image manifest.
    ImageManifest,
    /// A docker manifest list.
    ImageIndex,
    /// Anything else, which is not stored.
    Other,
}

pub open spec fn stored_content(content_type: Option<Seq<char>>) -> StoredContent {
    match content_type {
        Some(t) => if t == ORAS_ARTIFACTS_MANIFEST_MEDIA_TYPE@ || t == OCI_ARTIFACTS_MANIFEST_MEDIA_TYPE@ {
            StoredContent::ArtifactManifest
        } else if t == DOCKER_V1_MANIFEST@ || t == DOCKER_V2_MANIFEST@ || t == OCI_IMAGE_MANIFEST@ {
            StoredContent::ImageManifest
        } else if t == DOCKER_MANIFEST_LIST@ {
            StoredContent::ImageIndex
        } else {
            StoredContent::Other
        },
        None => StoredContent::Other,
    }
}

impl Store {
    /// The kind of content a response with `content_type` holds.
    pub fn content_kind(content_type: Option<&str>) -> (k: StoredContent)
        ensures
            k == stored_content(crate::hosts_config::opt_view(content_type)),
    {
        match content_type {
            Some(t) => if str_eq(t, ORAS_ARTIFACTS_MANIFEST_MEDIA_TYPE) || str_eq(t, OCI_ARTIFACTS_MANIFEST_MEDIA_TYPE) {
                StoredContent::ArtifactManifest
            } else if str_eq(t, DOCKER_V1_MANIFEST) || str_eq(t, DOCKER_V2_MANIFEST) || str_eq(t, OCI_IMAGE_MANIFEST) {
                StoredContent::ImageManifest
            } else if str_eq(t, DOCKER_MANIFEST_LIST) {
                StoredContent::ImageIndex
            } else {
                StoredContent::Other
            },
            None => StoredContent::Other,
        }
    }

    /// The descriptor read content is stored under: its content type,
    /// digest and content length.
    pub fn content_descriptor(content_type: &str, digest: &str, content_length: &str) -> (d: Descriptor)
        requires
            parse_u64_spec(content_length@) is Some,
        ensures
            d.media_type@ == content_type@,
            d.digest@ == digest@,
            Some(d.size) == parse_u64_spec(content_length@),
            d.artifact_type is None,
            d.platform is None,
    {
        let size = match parse_u64(content_length) {
            Some(n) => n,
            None => 0,
        };
        Descriptor {
            media_type: String::from_str(content_type),
            artifact_type: None,
            digest: String::from_str(digest),
            size,
            platform: None,
        }
    }
}

impl Store {
    /// Whether a body whose size hint is at most `size_upper` bytes fits its
    /// `content-length` header: it does unless both are known and the hint
    /// exceeds the length (a header that is no number bounds nothing).
    pub fn body_fits(size_upper: Option<u64>, content_length: Option<&str>) -> (b: bool)
        ensures
            b == (match (size_upper, content_length) {
                (Some(u), Some(l)) => match parse_u64_spec(l@) {
                    Some(n) => u <= n,
                    None => true,
                },
                _ => true,
            }),
    {
        match (size_upper, content_length) {
            (Some(u), Some(l)) => match parse_u64(l) {
                Some(n) => u <= n,
                None => true,
            },
            _ => true,
        }
    }
}

} // verus!
