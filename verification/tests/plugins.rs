use lifec_registry::content::{Descriptor, Platform};
use lifec_registry::error::ErrorKind;
use lifec_registry::plugins::artifact::Artifact;
use lifec_registry::plugins::authenticate::Authenticate;
use lifec_registry::plugins::discover::Discover;
use lifec_registry::plugins::guest::{commands_container, guest_prefix, AzureGuest, RemoteRegistry};
use lifec_registry::plugins::import::Import;
use lifec_registry::plugins::login::{Login, LoginACR, LoginNydus};
use lifec_registry::plugins::resolve::Resolve as ResolvePlugin;
use lifec_registry::plugins::store::{Store, StoredContent};
use lifec_registry::plugins::teleport::Teleport as TeleportPlugin;
use lifec_registry::push_session::PushSession;
use lifec_registry::resolve::Resolve;
use lifec_registry::teleport::overlaybd::FormatOverlayBD;
use lifec_registry::teleport::{Teleport, TeleportMode};
use lifec_registry::upload::Upload;

fn manifest(digest: &str, media_type: &str, platform: Option<(&str, &str)>) -> Descriptor {
    Descriptor {
        media_type: String::from(media_type),
        artifact_type: None,
        digest: String::from(digest),
        size: 1,
        platform: platform.map(|(os, arch)| Platform { os: String::from(os), architecture: String::from(arch) }),
    }
}

#[test]
fn import_source_manifest_list() {
    let (host, repo, uri) = Import::manifest_list_uri("docker.io/library/python:3.10").unwrap();
    assert_eq!(host, "docker.io");
    assert_eq!(repo, "library/python");
    assert_eq!(uri, "docker.io/v2/library/python/3.10");
    assert!(Import::manifest_list_uri("docker.io/python").is_none());
    assert!(Import::manifest_list_uri("python:latest").is_none());
}

#[test]
fn import_platform_source() {
    let list = vec![
        manifest("sha256:arm", "m", Some(("linux", "arm64"))),
        manifest("sha256:none", "m", None),
        manifest("sha256:amd", "m", Some(("linux", "amd64"))),
        manifest("sha256:amd2", "m", Some(("linux", "amd64"))),
    ];
    assert_eq!(
        Import::platform_source("docker.io", "library/python", &list, "linux/amd64").as_deref(),
        Some("docker.io/library/python@sha256:amd")
    );
    assert_eq!(Import::platform_source("h", "r", &list, "windows/amd64"), None);
    assert_eq!(Import::platform_source("h", "r", &list, "linux"), None);
    assert!(Import::needs_platform_lookup(Some("linux/amd64")));
    assert!(!Import::needs_platform_lookup(Some("all")));
    assert!(!Import::needs_platform_lookup(None));
}

#[test]
fn store_content_kinds() {
    assert_eq!(Store::content_kind(Some("application/vnd.cncf.oras.artifact.manifest.v1+json")), StoredContent::ArtifactManifest);
    assert_eq!(Store::content_kind(Some("application/vnd.oci.artifact.manifest.v1+json")), StoredContent::ArtifactManifest);
    assert_eq!(Store::content_kind(Some("application/vnd.docker.distribution.manifest.v2+json")), StoredContent::ImageManifest);
    assert_eq!(Store::content_kind(Some("application/vnd.oci.image.manifest.v1+json")), StoredContent::ImageManifest);
    assert_eq!(Store::content_kind(Some("application/vnd.docker.distribution.manifest.list.v2+json")), StoredContent::ImageIndex);
    assert_eq!(Store::content_kind(Some("text/plain")), StoredContent::Other);
    assert_eq!(Store::content_kind(None), StoredContent::Other);
    let d = Store::content_descriptor("text/plain", "sha256:x", "512");
    assert_eq!(d.size, 512);
    assert_eq!(d.digest, "sha256:x");
    assert_eq!(d.media_type, "text/plain");
}

#[test]
fn resolve_digest_from_cached_response() {
    assert_eq!(ResolvePlugin::digest_from_cache(Some("sha256:abc")).ok().as_deref(), Some("sha256:abc"));
    let e = ResolvePlugin::digest_from_cache(None).err().unwrap();
    assert_eq!(e.kind, ErrorKind::Recoverable);
    assert_eq!(e.message, "skip - missing digest from cached result, passing response through");
}

#[test]
fn resolution_apis() {
    assert_eq!(
        Resolve::manifest_api(None, "host.io", "library/hello", "latest"),
        "https://host.io/v2/library/hello/manifests/latest"
    );
    assert_eq!(Resolve::manifest_api(Some("http"), "h", "r", "v1"), "http://h/v2/r/manifests/v1");
    assert_eq!(Resolve::accept_header(Some(String::from("a")), String::from("b")), "a");
    assert_eq!(Resolve::accept_header(None, String::from("b")), "b");
    assert_eq!(PushSession::upload_session_url(None, "h", "r"), "https://h/v2/r/blobs/uploads");
    assert_eq!(Upload::upload_session_url(Some("http"), "h", "r"), "http://h/v2/r/blobs/uploads");
}

#[test]
fn discover_referrers_api() {
    assert_eq!(
        Discover::referrers_api("h", "r", None, "sha256:1", "dev.cosignproject.cosign/signature"),
        "https://h/v2/r/_oras/artifacts/referrers?digest=sha256:1&artifactType=dev.cosignproject.cosign/signature"
    );
    assert_eq!(Discover::referrers_api("h", "r", Some("referrers"), "d", "t"), "https://h/v2/r/referrers?digest=d&artifactType=t");
}

#[test]
fn artifact_manifests() {
    assert_eq!(Artifact::manifest_media_type(true), "application/vnd.oci.artifact.manifest.v1+json");
    assert_eq!(Artifact::manifest_media_type(false), "application/vnd.cncf.oras.artifact.manifest.v1+json");
    assert_eq!(Artifact::link_uri("https://h/v2/r/manifests/v1"), "https://h/v2/r/manifests/v1-link");
}

#[test]
fn authenticate_helpers() {
    assert_eq!(Authenticate::api_to_use(Some(String::from("a")), Some(String::from("b"))).as_deref(), Some("a"));
    assert_eq!(Authenticate::api_to_use(None, Some(String::from("b"))).as_deref(), Some("b"));
    assert_eq!(Authenticate::api_to_use(None, Some(String::new())), None);
    assert_eq!(Authenticate::api_to_use(None, None), None);
    assert!(Authenticate::starts_challenge(401));
    assert!(Authenticate::starts_challenge(404));
    assert!(!Authenticate::starts_challenge(200));
    assert!(!Authenticate::starts_challenge(500));
    assert_eq!(Authenticate::bearer("tok"), "Bearer tok");
}

#[test]
fn login_helpers() {
    assert!(Login::skips(true, true));
    assert!(!Login::skips(true, false));
    let (user, token) = Login::credentials("  secret-token\n");
    assert_eq!(user, "00000000-0000-0000-0000-000000000000");
    assert_eq!(token, "secret-token");
    assert_eq!(LoginACR::login_process(true), "sh login-acr-admin.sh");
    assert_eq!(LoginACR::login_process(false), "sh login-acr.sh");
    assert_eq!(LoginNydus::username_symbol("r.io"), "r.io.username");
}

#[test]
fn guest_helpers() {
    assert_eq!(guest_prefix(None), "default_guest");
    assert_eq!(guest_prefix(Some(String::from("w"))), "w");
    assert_eq!(commands_container("tenant"), "tenant-guest");
    assert_eq!(AzureGuest::script_process("run.sh"), "sh run.sh");
    assert_eq!(RemoteRegistry::account_name(Some(String::from("acct")), Some(String::from("env"))).as_deref(), Some("acct"));
    assert_eq!(RemoteRegistry::account_name(Some(String::new()), Some(String::from("env"))).as_deref(), Some("env"));
    assert_eq!(RemoteRegistry::account_name(None, Some(String::from("env"))), None);
}

#[test]
fn teleport_decisions() {
    assert_eq!(Teleport::mode("overlaybd"), TeleportMode::OverlayBd);
    assert_eq!(Teleport::mode("manual"), TeleportMode::Manual);
    assert_eq!(Teleport::mode("nydus"), TeleportMode::Unrecognized);
    let blobs = vec![
        manifest("sha256:a", "application/vnd.oci.image.manifest.v1+json", None),
        manifest("sha256:b", "application/vnd.docker.distribution.manifest.v2+json", None),
        manifest("sha256:c", "application/vnd.docker.distribution.manifest.v2+json", None),
    ];
    assert_eq!(Teleport::streamable_manifest(&blobs), Some(1));
    let oci_only = vec![manifest("sha256:a", "application/vnd.oci.image.manifest.v1+json", None)];
    assert_eq!(Teleport::streamable_manifest(&oci_only), None);
    assert!(Teleport::swaps("sha256:a", "sha256:a"));
    assert!(!Teleport::swaps("sha256:a", "sha256:b"));
    assert_eq!(TeleportPlugin::answer_digest(Some(String::from("s")), String::from("c")), "s");
    assert_eq!(TeleportPlugin::answer_digest(None, String::from("c")), "c");
    assert!(FormatOverlayBD::converts(Some(true)));
    assert!(!FormatOverlayBD::converts(Some(false)));
    assert!(!FormatOverlayBD::converts(None));
}

#[test]
fn body_fits_content_length() {
    assert!(Store::body_fits(Some(10), Some("10")));
    assert!(!Store::body_fits(Some(11), Some("10")));
    assert!(Store::body_fits(None, Some("10")));
    assert!(Store::body_fits(Some(11), None));
    assert!(Store::body_fits(Some(11), Some("ten")));
}

#[test]
fn artifact_manifest_keeps_first_blob() {
    let subject = manifest("sha256:s", "application/vnd.oci.image.manifest.v1+json", None);
    let blob = manifest("sha256:b", "application/octet-stream", None);
    let m = Artifact::manifest(true, String::from("dadi.image.v1"), subject, Some(blob));
    assert_eq!(m.media_type, "application/vnd.oci.artifact.manifest.v1+json");
    assert_eq!(m.artifact_type, "dadi.image.v1");
    assert_eq!(m.subject.digest, "sha256:s");
    assert_eq!(m.blobs.len(), 1);
    assert_eq!(m.blobs[0].digest, "sha256:b");
    let subject = manifest("sha256:s", "m", None);
    let none = Artifact::manifest(false, String::from("t"), subject, None);
    assert_eq!(none.media_type, "application/vnd.cncf.oras.artifact.manifest.v1+json");
    assert!(none.blobs.is_empty());
}

#[test]
fn import_source_and_environment() {
    assert_eq!(Import::source("docker.io/a:b", None, None).as_deref(), Some("docker.io/a:b"));
    assert_eq!(Import::source("docker.io/a:b", Some("all"), Some(String::from("x"))).as_deref(), Some("docker.io/a:b"));
    assert_eq!(Import::source("docker.io/a:b", Some("linux/amd64"), Some(String::from("x"))).as_deref(), Some("x"));
    assert_eq!(Import::source("docker.io/a:b", Some("linux/amd64"), None), None);
    let env = Import::environment(Some("docker.io/a:b"), Some("n"), Some("azurecr.io"), Some("u"), Some("t"), Some("r"), Some("v1"), Some("src")).unwrap();
    let pairs: Vec<(&str, &str)> = env.iter().map(|(k, v)| (k.as_str(), v.as_str())).collect();
    assert_eq!(
        pairs,
        vec![
            ("REGISTRY_NAME", "n"),
            ("REGISTRY_HOST", "azurecr.io"),
            ("REGISTRY_USER", "u"),
            ("REGISTRY_TOKEN", "t"),
            ("REPO", "r"),
            ("REFERENCE", "v1"),
            ("SOURCE", "src"),
        ]
    );
    assert_eq!(Import::environment(Some("i"), Some("n"), Some("h"), Some("u"), Some("t"), Some("r"), Some("v"), None).unwrap().len(), 6);
    assert!(Import::environment(Some("i"), None, Some("h"), Some("u"), Some("t"), Some("r"), Some("v"), None).is_none());
    assert!(Import::environment(None, Some("n"), Some("h"), Some("u"), Some("t"), Some("r"), Some("v"), None).is_none());
}
