//! Adding artifact manifests to a registry.
use vstd::prelude::*;
use crate::consts::{OCI_ARTIFACTS_MANIFEST_MEDIA_TYPE, ORAS_ARTIFACTS_MANIFEST_MEDIA_TYPE};
use crate::text::cat;
use crate::content::Descriptor;

verus! {

/// This plugin is for adding artifacts to a registry.
pub struct Artifact;

/// An artifact manifest: its media type, artifact type, blobs and subject.
pub struct ArtifactManifest {
    pub media_type: String,
    pub artifact_type: String,
    pub blobs: Vec<Descriptor>,
    pub subject: Descriptor,
}

impl Artifact {
    /// Media type of the artifact manifest: OCI when `oci` is enabled, ORAS otherwise.
    pub fn manifest_media_type(oci: bool) -> (m: &'static str)
        ensures
            m@ == (if oci {
                OCI_ARTIFACTS_MANIFEST_MEDIA_TYPE@
            } else {
                ORAS_ARTIFACTS_MANIFEST_MEDIA_TYPE@
            }),
    {
        if oci {
            OCI_ARTIFACTS_MANIFEST_MEDIA_TYPE
        } else {
            ORAS_ARTIFACTS_MANIFEST_MEDIA_TYPE
        }
    }

    /// The artifact manifest put for `subject`: the media type by `oci`,
    /// and as blobs only the first listed blob, resolved to `first_blob`
    /// (the other listed blobs are not added).
    pub fn manifest(oci: bool, artifact_type: String, subject: Descriptor, first_blob: Option<Descriptor>) -> (m:
        ArtifactManifest)
        ensures
            m.media_type@ == (if oci {
                OCI_ARTIFACTS_MANIFEST_MEDIA_TYPE@
            } else {
                ORAS_ARTIFACTS_MANIFEST_MEDIA_TYPE@
            }),
            m.artifact_type == artifact_type,
            m.subject == subject,
            m.blobs@ == (match first_blob {
                Some(b) => seq![b],
                None => Seq::<Descriptor>::empty(),
            }),
    {
        let mut blobs: Vec<Descriptor> = Vec::new();
        if let Some(b) = first_blob {
            blobs.push(b);
        }
        ArtifactManifest {
            media_type: String::from_str(Self::manifest_media_type(oci)),
            artifact_type,
            blobs,
            subject,
        }
    }

    /// The uri the artifact manifest is put to: the manifest url with `-link` appended.
    pub fn link_uri(manifest_url: &str) -> (u: String)
        ensures
            u@ == manifest_url@ + "-link"@,
    {
        cat(manifest_url, "-link")
    }
}

} // verus!
