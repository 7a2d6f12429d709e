//! Header names and media types shared by the proxy and the mirror config.
use vstd::prelude::*;

verus! {

/// Header a mirror client sends so that only hosts with this suffix are accepted.
pub const ACCEPT_IF_SUFFIX_HEADER: &'static str = "x-ms-accept-if-suffix";

/// Header a mirror client sends so that the mirror is enabled for hosts with this suffix.
pub const ENABLE_MIRROR_IF_SUFFIX_HEADER: &'static str = "x-ms-enable-mirror-if-suffix";

/// Header a mirror client sends to ask for a streamable format of the image.
pub const UPGRADE_IF_STREAMABLE_HEADER: &'static str = "x-ms-upgrade-if-streamable";

/// Media type of an OCI artifact manifest.
pub const OCI_ARTIFACTS_MANIFEST_MEDIA_TYPE: &'static str = "application/vnd.oci.artifact.manifest.v1+json";

/// Media type of an ORAS artifact manifest.
pub const ORAS_ARTIFACTS_MANIFEST_MEDIA_TYPE: &'static str = "application/vnd.cncf.oras.artifact.manifest.v1+json";

/// Media type of a docker v2 image manifest.
pub const DOCKER_V2_MANIFEST: &'static str = "application/vnd.docker.distribution.manifest.v2+json";

} // verus!

verus! {

/// Media type of a docker v1 image manifest.
pub const DOCKER_V1_MANIFEST: &'static str = "application/vnd.docker.distribution.manifest.v1+json";

/// Media type of an OCI image manifest.
pub const OCI_IMAGE_MANIFEST: &'static str = "application/vnd.oci.image.manifest.v1+json";

/// Media type of a docker manifest list.
pub const DOCKER_MANIFEST_LIST: &'static str = "application/vnd.docker.distribution.manifest.list.v2+json";

} // verus!
