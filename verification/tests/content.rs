use lifec_registry::content::{check_content_digest, resource_for, sha256_content_digest, to_lower_hex, DigestCheck};

const HELLO_SHA256: &str = "sha256:2cf24dba5fb0a30e26e83b2ac5b9e29e1b161e5c1fa7425e73043362938b9824";

#[test]
fn sha256_digest_of_known_content() {
    assert_eq!(sha256_content_digest(b"hello"), HELLO_SHA256);
    assert_eq!(
        sha256_content_digest(b""),
        "sha256:e3b0c44298fc1c149afbf4c8996fb92427ae41e4649b934ca495991b7852b855"
    );
}

#[test]
fn content_checks_against_its_digest() {
    assert_eq!(check_content_digest(b"hello", HELLO_SHA256), DigestCheck::Verified);
    assert_eq!(check_content_digest(b"hellO", HELLO_SHA256), DigestCheck::Mismatch);
    let d = sha256_content_digest(b"some layer");
    assert_eq!(check_content_digest(b"some layer", &d), DigestCheck::Verified);
    assert_eq!(check_content_digest(b"hello", "md5:abc"), DigestCheck::Unrecognized);
}

#[test]
fn sha512_digest_check() {
    let d = "sha512:9b71d224bd62f3785d96d46ad3ea3d73319bfbc2890caadae2dff72519673ca72323c3d99ba5c11d7c7acc6e14b8c5da0c4663475c2e5c3adef46f73bcdec043";
    assert_eq!(check_content_digest(b"hello", d), DigestCheck::Verified);
    assert_eq!(check_content_digest(b"hello!", d), DigestCheck::Mismatch);
}

#[test]
fn lower_hex_text() {
    assert_eq!(to_lower_hex(&[0x00, 0x0f, 0xab, 0xff]), "000fabff");
    assert_eq!(to_lower_hex(&[]), "");
}

#[test]
fn media_type_resources() {
    assert_eq!(resource_for("application/vnd.docker.distribution.manifest.list.v2+json"), Some("manifests"));
    assert_eq!(resource_for("  application/vnd.oci.artifact.manifest.v1+json"), Some("manifests"));
    assert_eq!(resource_for("application/vnd.oci.image.config.v1+json"), Some("blobs"));
    assert_eq!(resource_for(""), None);
    assert_eq!(resource_for("   "), None);
}
