use lifec_registry::error::ErrorKind;
use lifec_registry::object::Object;
use lifec_registry::proxy::proxy_target::ProxyTarget;

const DIGEST: &str = "sha256:b94d27b9934d3e8a52e52d7da7dabfac484efe37a5380ee9088f7ace2efcde9";

fn target(object: Object) -> ProxyTarget {
    ProxyTarget {
        namespace: String::from("host.io"),
        repo: String::from("library/hello"),
        object,
        import: None,
    }
}

#[test]
fn urls_of_a_tagged_target() {
    let t = target(Object::Reference(String::from("latest")));
    assert_eq!(t.blob_upload_url(), "https://host.io/v2/library/hello/blobs/uploads");
    assert_eq!(t.manifest_url(), "https://host.io/v2/library/hello/manifests/latest");
    assert_eq!(t.manifest_with("v2"), "https://host.io/v2/library/hello/manifests/v2");
    assert_eq!(t.image_reference(), "host.io/library/hello:latest");
    assert_eq!(t.object(), &Object::Reference(String::from("latest")));
}

#[test]
fn urls_of_a_digest_target() {
    let t = target(Object::Digest(String::from(DIGEST)));
    assert_eq!(t.blob_url(), format!("https://host.io/v2/library/hello/blobs/{DIGEST}"));
    assert_eq!(
        t.referrers_url(),
        format!("https://host.io/v2/library/hello/_oras/artifacts/referrers?digest={DIGEST}")
    );
    assert_eq!(t.image_reference(), format!("host.io/library/hello@{DIGEST}"));
    assert_eq!(
        t.image_reference_with(Object::Reference(String::from("v1"))),
        "host.io/library/hello:v1"
    );
}

#[test]
fn import_repository_replaces_the_manifest_repository() {
    let mut t = target(Object::Reference(String::from("latest")));
    t.import = Some(String::from("mirror/hello"));
    assert_eq!(t.manifest_url(), "https://host.io/v2/mirror/hello/manifests/latest");
    assert_eq!(t.blob_upload_url(), "https://host.io/v2/library/hello/blobs/uploads");
}

#[test]
fn content_url_by_media_type() {
    let t = target(Object::Reference(String::from("latest")));
    assert_eq!(
        t.content_url("application/vnd.oci.image.manifest.v1+json", "sha256:1"),
        "https://host.io/v2/library/hello/manifests/sha256:1"
    );
    assert_eq!(
        t.content_url("application/vnd.oci.image.layer.v1.tar+gzip", "sha256:2"),
        "https://host.io/v2/library/hello/blobs/sha256:2"
    );
    assert!(t.targets_host("host.io"));
    assert!(!t.targets_host("other.io"));
}

#[test]
fn target_from_symbols() {
    let t = ProxyTarget::from_symbols(
        Some(String::from("host.io")),
        Some(String::from("repo")),
        None,
        Some(String::from("v1.0")),
        None,
    )
    .ok()
    .unwrap();
    assert_eq!(t.object, Object::Reference(String::from("v1.0")));
    let d = ProxyTarget::from_symbols(
        Some(String::from("host.io")),
        Some(String::from("repo")),
        Some(String::from(DIGEST)),
        Some(String::from("v1.0")),
        Some(String::from("imported")),
    )
    .ok()
    .unwrap();
    assert_eq!(d.object, Object::Digest(String::from(DIGEST)));
    assert_eq!(d.import.as_deref(), Some("imported"));
    let e = ProxyTarget::from_symbols(None, Some(String::from("repo")), None, None, None).err().unwrap();
    assert_eq!(e.kind, ErrorKind::InvalidOperation);
    assert_eq!(e.message, "Current context is missing namespace, repo information");
    let no_object = ProxyTarget::from_symbols(Some(String::from("h")), Some(String::from("r")), None, None, None)
        .ok()
        .unwrap();
    assert_eq!(no_object.object, Object::Error);
}

#[test]
fn target_from_request_uri() {
    let t = ProxyTarget::from_request_parts("host.io", "/library/hello/manifests/latest").unwrap();
    assert_eq!(t.namespace, "host.io");
    assert_eq!(t.repo, "/library/hello/manifests");
    assert_eq!(t.object, Object::Reference(String::from("latest")));
    assert!(ProxyTarget::from_request_parts("h", "/").is_none());
    assert_eq!(ProxyTarget::from_request_parts("h", "/a/:bad").unwrap().object, Object::Error);
    let d = ProxyTarget::from_request_parts("host.io", "/v2/library/test/manifests/sha256:abc").unwrap();
    assert_eq!(d.repo, "/v2/library/test/manifests");
    assert_eq!(d.object, Object::Digest(String::from("sha256:abc")));
    let p = ProxyTarget::from_path_parts("h", String::from("/r"), DIGEST);
    assert_eq!(p.object, Object::Digest(String::from(DIGEST)));
}

#[test]
fn descriptor_from_head_response() {
    let d = ProxyTarget::resolved_descriptor(
        200,
        Some("sha256:abc"),
        Some("1024"),
        Some("application/vnd.oci.image.manifest.v1+json"),
    )
    .unwrap();
    assert_eq!(d.digest, "sha256:abc");
    assert_eq!(d.size, 1024);
    assert_eq!(d.media_type, "application/vnd.oci.image.manifest.v1+json");
    assert!(d.artifact_type.is_none() && d.platform.is_none());
    assert!(ProxyTarget::resolved_descriptor(404, None, None, None).is_none());
}

#[test]
fn uri_checked_against_target_host() {
    let t = target(Object::Reference(String::from("latest")));
    assert_eq!(t.check_uri("https://host.io/v2/library/hello/manifests/latest"), Some(true));
    assert_eq!(t.check_uri("https://other.io/v2/x/manifests/latest"), Some(false));
    assert_eq!(t.check_uri("/v2/x/manifests/latest"), Some(false));
    assert_eq!(t.check_uri("http://bad host/"), None);
}
