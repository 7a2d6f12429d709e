//! Registry content descriptors and the media types that tell manifests
//! from blobs.
use vstd::prelude::*;
use crate::text::{chars_of, occurs_at, has_prefix};
use crate::object::{skip_blanks, skip_blanks_index};

verus! {

/// The platform an image manifest is built for.
pub struct Platform {
    pub os: String,
    pub architecture: String,
}

/// Describes a piece of registry content.
pub struct Descriptor {
    pub media_type: String,
    pub artifact_type: Option<String>,
    pub digest: String,
    pub size: u64,
    pub platform: Option<Platform>,
}

/// Media types of manifests; every other media type is served as a blob.
pub open spec fn manifest_media_types() -> Seq<Seq<char>> {
    seq![
        "application/vnd.oci.artifact.manifest.v1+json"@,
        "application/vnd.cncf.oras.artifact.manifest.v1+json"@,
        "application/vnd.oci.image.manifest.v1+json"@,
        "application/vnd.docker.distribution.manifest.v1+json"@,
        "application/vnd.docker.distribution.manifest.v2+json"@,
        "application/vnd.docker.distribution.manifest.list.v2+json"@,
    ]
}

/// `t` starts with a manifest media type.
pub open spec fn names_manifest(t: Seq<char>) -> bool {
    exists|k: int| 0 <= k < manifest_media_types().len() && has_prefix(t, #[trigger] manifest_media_types()[k])
}

/// The api segment under which content of `media_type` is addressed:
/// `manifests` for a manifest media type, `blobs` for anything else
/// (leading blanks ignored; nothing for a blank media type).
pub open spec fn resource_segment(media_type: Seq<char>) -> Option<Seq<char>> {
    let t = skip_blanks(media_type);
    if t.len() == 0 {
        None
    } else if names_manifest(t) {
        Some("manifests"@)
    } else {
        Some("blobs"@)
    }
}

/// Returns the api segment for content of `media_type`.
pub fn resource_for(media_type: &str) -> (r: Option<&'static str>)
    ensures
        match r {
            Some(seg) => resource_segment(media_type@) == Some(seg@),
            None => resource_segment(media_type@) is None,
        },
{
    let v = chars_of(media_type);
    let i = skip_blanks_index(&v);
    if i == v.len() {
        return None;
    }
    let types: [&str; 6] = [
        "application/vnd.oci.artifact.manifest.v1+json",
        "application/vnd.cncf.oras.artifact.manifest.v1+json",
        "application/vnd.oci.image.manifest.v1+json",
        "application/vnd.docker.distribution.manifest.v1+json",
        "application/vnd.docker.distribution.manifest.v2+json",
        "application/vnd.docker.distribution.manifest.list.v2+json",
    ];
    proof {
        reveal_strlit("application/vnd.oci.artifact.manifest.v1+json");
        reveal_strlit("application/vnd.cncf.oras.artifact.manifest.v1+json");
        reveal_strlit("application/vnd.oci.image.manifest.v1+json");
        reveal_strlit("application/vnd.docker.distribution.manifest.v1+json");
        reveal_strlit("application/vnd.docker.distribution.manifest.v2+json");
        reveal_strlit("application/vnd.docker.distribution.manifest.list.v2+json");
        reveal_strlit("manifests");
        reveal_strlit("blobs");
        assert(types@.map_values(|s: &str| s@) =~= manifest_media_types());
    }
    let mut k: usize = 0;
    while k < 6
        invariant
            k <= 6,
            i < v@.len(),
            skip_blanks(media_type@) == v@.skip(i as int),
            v@ == media_type@,
            types@.map_values(|s: &str| s@) == manifest_media_types(),
            forall|j: int| 0 <= j < k ==> !has_prefix(v@.skip(i as int), #[trigger] manifest_media_types()[j]),
        decreases 6 - k,
    {
        let pv = chars_of(types[k]);
        assert(pv@ == manifest_media_types()[k as int]);
        if occurs_at(&v, &pv, i) {
            return Some("manifests");
        }
        k = k + 1;
    }
    Some("blobs")
}

} // verus!

verus! {

/// Name for the SHA-256 digest of `data` as `sha2::Sha256` computes it.
pub uninterp spec fn sha256_of(data: Seq<u8>) -> Seq<u8>;

/// Name for the SHA-512 digest of `data` as `sha2::Sha512` computes it.
pub uninterp spec fn sha512_of(data: Seq<u8>) -> Seq<u8>;

/// SHA-256 of `data` (`sha2::Sha256`): the named digest, 32 bytes long.
#[verifier::external_body]
fn sha256_digest(data: &[u8]) -> (r: Vec<u8>)
    ensures
        r@ == sha256_of(data@),
        r@.len() == 32,
{
    let mut hasher = <sha2::Sha256 as sha2::Digest>::new();
    sha2::Digest::update(&mut hasher, data);
    sha2::Digest::finalize(hasher).to_vec()
}

/// SHA-512 of `data` (`sha2::Sha512`): the named digest, 64 bytes long.
#[verifier::external_body]
fn sha512_digest(data: &[u8]) -> (r: Vec<u8>)
    ensures
        r@ == sha512_of(data@),
        r@.len() == 64,
{
    let mut hasher = <sha2::Sha512 as sha2::Digest>::new();
    sha2::Digest::update(&mut hasher, data);
    sha2::Digest::finalize(hasher).to_vec()
}

/// Lower-case hex digit of a nibble.
pub open spec fn hex_digit(n: u8) -> char {
    if n < 10 {
        (48 + n) as char
    } else {
        (87 + n) as char
    }
}

/// Lower-case hex text of `bytes`, two digits per byte.
pub open spec fn lower_hex(bytes: Seq<u8>) -> Seq<char>
    decreases bytes.len(),
{
    if bytes.len() == 0 {
        Seq::empty()
    } else {
        lower_hex(bytes.drop_last()) + seq![hex_digit(bytes.last() / 16), hex_digit(bytes.last() % 16)]
    }
}

fn hex_digit_exec(n: u8) -> (c: char)
    requires
        n < 16,
    ensures
        c == hex_digit(n),
{
    if n < 10 {
        (48u8 + n) as char
    } else {
        (87u8 + n) as char
    }
}

/// Lower-case hex text of `bytes`.
pub fn to_lower_hex(bytes: &[u8]) -> (s: String)
    ensures
        s@ == lower_hex(bytes@),
{
    let mut s = String::new();
    let mut i: usize = 0;
    assert(bytes@.take(0) == Seq::<u8>::empty());
    while i < bytes.len()
        invariant
            i <= bytes@.len(),
            s@ == lower_hex(bytes@.take(i as int)),
        decreases bytes@.len() - i,
    {
        let b = bytes[i];
        assert(bytes@.take(i + 1).drop_last() == bytes@.take(i as int));
        assert(bytes@.take(i + 1).last() == b);
        crate::text::push_char(&mut s, hex_digit_exec(b / 16));
        crate::text::push_char(&mut s, hex_digit_exec(b % 16));
        i = i + 1;
    }
    assert(bytes@.take(bytes@.len() as int) == bytes@);
    s
}

/// Outcome of checking content against its `docker-content-digest`.
#[derive(Debug, PartialEq, Eq, Clone, Copy)]
pub enum DigestCheck {
    /// The content hashes to the digest.
    Verified,
    /// The content does not hash to the digest.
    Mismatch,
    /// The digest names neither `sha256` nor `sha512`.
    Unrecognized,
}

/// How content `body` checks against the digest `digest`: a `sha256…`
/// digest is compared, after its `sha256:` prefix, with the hex SHA-256
/// of the body; a `sha512…` digest likewise with the hex SHA-512.
pub open spec fn digest_check(body: Seq<u8>, digest: Seq<char>) -> DigestCheck {
    if has_prefix(digest, "sha256"@) {
        if lower_hex(sha256_of(body)) == crate::text::trim_prefix_all(digest, "sha256:"@) {
            DigestCheck::Verified
        } else {
            DigestCheck::Mismatch
        }
    } else if has_prefix(digest, "sha512"@) {
        if lower_hex(sha512_of(body)) == crate::text::trim_prefix_all(digest, "sha512:"@) {
            DigestCheck::Verified
        } else {
            DigestCheck::Mismatch
        }
    } else {
        DigestCheck::Unrecognized
    }
}

/// Checks content against the digest it was served with.
pub fn check_content_digest(body: &[u8], digest: &str) -> (r: DigestCheck)
    ensures
        r == digest_check(body@, digest@),
{
    if crate::text::starts_with(digest, "sha256") {
        let computed = to_lower_hex(&sha256_digest(body));
        let expected = crate::text::trim_start_matches(digest, "sha256:");
        if crate::text::str_eq(computed.as_str(), expected.as_str()) {
            DigestCheck::Verified
        } else {
            DigestCheck::Mismatch
        }
    } else if crate::text::starts_with(digest, "sha512") {
        let computed = to_lower_hex(&sha512_digest(body));
        let expected = crate::text::trim_start_matches(digest, "sha512:");
        if crate::text::str_eq(computed.as_str(), expected.as_str()) {
            DigestCheck::Verified
        } else {
            DigestCheck::Mismatch
        }
    } else {
        DigestCheck::Unrecognized
    }
}

/// The digest a registry serves content under: `sha256:` and the hex
/// SHA-256 of the content.
pub fn sha256_content_digest(body: &[u8]) -> (d: String)
    ensures
        d@ == "sha256:"@ + lower_hex(sha256_of(body@)),
{
    let hex = to_lower_hex(&sha256_digest(body));
    crate::text::cat("sha256:", hex.as_str())
}

proof fn lemma_lower_hex_no_tag(bytes: Seq<u8>)
    ensures
        forall|i: int| 0 <= i < lower_hex(bytes).len() ==> {
            let c = #[trigger] lower_hex(bytes)[i];
            ('0' <= c <= '9') || ('a' <= c <= 'f')
        },
        lower_hex(bytes).len() == 2 * bytes.len(),
    decreases bytes.len(),
{
    if bytes.len() > 0 {
        lemma_lower_hex_no_tag(bytes.drop_last());
        let b = bytes.last();
        assert(b / 16 < 16 && b % 16 < 16);
        let pre = lower_hex(bytes.drop_last());
        let two = seq![hex_digit(b / 16), hex_digit(b % 16)];
        assert forall|i: int| 0 <= i < (pre + two).len() implies {
            let c = #[trigger] (pre + two)[i];
            ('0' <= c <= '9') || ('a' <= c <= 'f')
        } by {
            if i >= pre.len() {
                assert((pre + two)[i] == two[i - pre.len()]);
            }
        }
    }
}

/// Content checks against the digest it is served under: whatever the
/// content, its `sha256:` digest verifies it.
pub proof fn lemma_content_digest_verifies(body: Seq<u8>)
    ensures
        digest_check(body, "sha256:"@ + lower_hex(sha256_of(body))) == DigestCheck::Verified,
{
    reveal_strlit("sha256");
    reveal_strlit("sha256:");
    let hex = lower_hex(sha256_of(body));
    let d = "sha256:"@ + hex;
    assert(d.take(6) == "sha256"@);
    assert(d.skip(7) == hex);
    assert(crate::text::has_prefix(d, "sha256:"@)) by {
        assert(d.take(7) == "sha256:"@);
    }
    lemma_lower_hex_no_tag(sha256_of(body));
    if crate::text::has_prefix(hex, "sha256:"@) {
        assert(hex.take(7)[0] == 's');
        assert(hex[0] == 's');
    }
    assert(crate::text::trim_prefix_all(hex, "sha256:"@) == hex);
    assert(crate::text::trim_prefix_all(d, "sha256:"@) == crate::text::trim_prefix_all(d.skip(7), "sha256:"@));
}

} // verus!

verus! {

/// The platform of a descriptor as (os, architecture), if it has one.
pub open spec fn platform_of(d: Descriptor) -> Option<(Seq<char>, Seq<char>)> {
    match d.platform {
        Some(p) => Some((p.os@, p.architecture@)),
        None => None,
    }
}

} // verus!

verus! {

/// Every manifest media type is served under `manifests`, whatever follows
/// it: the OCI artifact and image manifests, the ORAS artifact manifest and
/// the docker v1, v2 and list manifests.
pub proof fn lemma_manifest_media_types_served_as_manifests(rest: Seq<char>)
    ensures
        resource_segment("application/vnd.oci.artifact.manifest.v1+json"@ + rest) == Some("manifests"@),
        resource_segment("application/vnd.cncf.oras.artifact.manifest.v1+json"@ + rest) == Some("manifests"@),
        resource_segment("application/vnd.oci.image.manifest.v1+json"@ + rest) == Some("manifests"@),
        resource_segment("application/vnd.docker.distribution.manifest.v1+json"@ + rest) == Some("manifests"@),
        resource_segment("application/vnd.docker.distribution.manifest.v2+json"@ + rest) == Some("manifests"@),
        resource_segment("application/vnd.docker.distribution.manifest.list.v2+json"@ + rest) == Some(
            "manifests"@,
        ),
{
    reveal_strlit("application/vnd.oci.artifact.manifest.v1+json");
    reveal_strlit("application/vnd.cncf.oras.artifact.manifest.v1+json");
    reveal_strlit("application/vnd.oci.image.manifest.v1+json");
    reveal_strlit("application/vnd.docker.distribution.manifest.v1+json");
    reveal_strlit("application/vnd.docker.distribution.manifest.v2+json");
    reveal_strlit("application/vnd.docker.distribution.manifest.list.v2+json");
    let ts = manifest_media_types();
    assert forall|k: int| 0 <= k < 6 implies resource_segment(#[trigger] ts[k] + rest) == Some("manifests"@) by {
        let t = ts[k] + rest;
        assert(t[0] == 'a');
        assert(skip_blanks(t) == t);
        assert(t.take(ts[k].len() as int) =~= ts[k]);
        assert(has_prefix(t, ts[k]));
        assert(names_manifest(t));
    }
    assert(ts[0] == "application/vnd.oci.artifact.manifest.v1+json"@);
    assert(ts[1] == "application/vnd.cncf.oras.artifact.manifest.v1+json"@);
    assert(ts[2] == "application/vnd.oci.image.manifest.v1+json"@);
    assert(ts[3] == "application/vnd.docker.distribution.manifest.v1+json"@);
    assert(ts[4] == "application/vnd.docker.distribution.manifest.v2+json"@);
    assert(ts[5] == "application/vnd.docker.distribution.manifest.list.v2+json"@);
}

} // verus!
