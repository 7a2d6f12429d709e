//! Importing a public source image into a private repository.
use vstd::prelude::*;
use crate::content::{Descriptor, platform_of};
use crate::text::{split_once, split_once_spec, cat, cat3, str_eq};

verus! {

/// Plugin to handle importing a public source image to a private repo.
pub struct Import;

/// The manifest list that an import source `host/repo:reference` is checked
/// against: host, repo and the uri `host/v2/repo/reference`.
pub open spec fn import_manifest_list(import: Seq<char>) -> Option<(Seq<char>, Seq<char>, Seq<char>)> {
    match split_once_spec(import, ':') {
        Some((ns, reference)) => match split_once_spec(ns, '/') {
            Some((host, repo)) => Some((host, repo, host + "/v2/"@ + repo + "/"@ + reference)),
            None => None,
        },
        None => None,
    }
}

/// Index of the first descriptor built for `os`/`arch`.
pub open spec fn first_for_platform(ds: Seq<Descriptor>, os: Seq<char>, arch: Seq<char>) -> Option<int>
    decreases ds.len(),
{
    if ds.len() == 0 {
        None
    } else {
        match first_for_platform(ds.drop_last(), os, arch) {
            Some(k) => Some(k),
            None => if platform_of(ds.last()) == Some((os, arch)) {
                Some(ds.len() - 1)
            } else {
                None
            },
        }
    }
}

/// The source to import for `platform` (`os/arch`) from a manifest list of
/// `host/repo`: `host/repo@digest` of the first manifest for that platform.
pub open spec fn platform_source_spec(
    host: Seq<char>,
    repo: Seq<char>,
    manifests: Seq<Descriptor>,
    platform: Seq<char>,
) -> Option<Seq<char>> {
    match split_once_spec(platform, '/') {
        Some((os, arch)) => match first_for_platform(manifests, os, arch) {
            Some(k) => Some(host + "/"@ + repo + "@"@ + manifests[k].digest@),
            None => None,
        },
        None => None,
    }
}

impl Import {
    /// Splits an import source into host, repo and the manifest uri to check.
    pub fn manifest_list_uri(import: &str) -> (r: Option<(String, String, String)>)
        ensures
            match r {
                Some(t) => import_manifest_list(import@) == Some((t.0@, t.1@, t.2@)),
                None => import_manifest_list(import@) is None,
            },
    {
        match split_once(import, ':') {
            Some((ns, reference)) => match split_once(ns.as_str(), '/') {
                Some((host, repo)) => {
                    let mut uri = cat3(host.as_str(), "/v2/", repo.as_str());
                    uri.append("/");
                    uri.append(reference.as_str());
                    Some((host, repo, uri))
                },
                None => None,
            },
            None => None,
        }
    }

    /// Finds the source for `platform` in a manifest list.
    pub fn platform_source(host: &str, repo: &str, manifests: &Vec<Descriptor>, platform: &str) -> (r: Option<String>)
        ensures
            crate::plugins::authenticate::opt_seq_string(r) == platform_source_spec(
                host@,
                repo@,
                manifests@,
                platform@,
            ),
    {
        let (os, arch) = match split_once(platform, '/') {
            Some(p) => p,
            None => return None,
        };
        let mut i: usize = 0;
        while i < manifests.len()
            invariant
                i <= manifests@.len(),
                split_once_spec(platform@, '/') == Some((os@, arch@)),
                first_for_platform(manifests@.take(i as int), os@, arch@) is None,
            decreases manifests@.len() - i,
        {
            let d = &manifests[i];
            assert(manifests@.take(i + 1).drop_last() == manifests@.take(i as int));
            assert(manifests@.take(i + 1).last() == *d);
            let matches = match &d.platform {
                Some(p) => str_eq(p.os.as_str(), os.as_str()) && str_eq(p.architecture.as_str(), arch.as_str()),
                None => false,
            };
            if matches {
                assert(platform_of(*d) == Some((os@, arch@)));
                assert(first_for_platform(manifests@.take(i + 1), os@, arch@) == Some(i as int));
                proof {
                    lemma_first_prefix(manifests@, i as int + 1, os@, arch@, i as int);
                }
                let mut s = cat3(host, "/", repo);
                s.append("@");
                s.append(d.digest.as_str());
                assert(manifests@[i as int] == *d);
                assert(split_once_spec(platform@, '/') == Some((os@, arch@)));
                return Some(s);
            }
            i = i + 1;
        }
        assert(manifests@.take(manifests@.len() as int) == manifests@);
        None
    }

    /// The image to import from: the import source itself unless a
    /// platform other than `all` is asked for.
    pub fn needs_platform_lookup(platform: Option<&str>) -> (b: bool)
        ensures
            b == (platform matches Some(p) && p@ != "all"@),
    {
        match platform {
            Some(p) => !str_eq(p, "all"),
            None => false,
        }
    }

    /// The source to import: the import source itself unless a platform
    /// lookup is needed, then the source found for that platform, if any.
    pub fn source(import: &str, platform: Option<&str>, found: Option<String>) -> (r: Option<String>)
        ensures
            crate::plugins::authenticate::opt_seq_string(r) == (if platform matches Some(p) && p@ != "all"@ {
                crate::plugins::authenticate::opt_seq_string(found)
            } else {
                Some(import@)
            }),
    {
        if Self::needs_platform_lookup(platform) {
            found
        } else {
            Some(String::from_str(import))
        }
    }

    /// The environment of the `sh import.sh` process: registry name and
    /// host, user, token, repo and reference, and the source when there is
    /// one; nothing (no import is run) unless the import source and all of
    /// those six are known.
    pub fn environment(
        import: Option<&str>,
        registry_name: Option<&str>,
        registry_host: Option<&str>,
        user: Option<&str>,
        token: Option<&str>,
        repo: Option<&str>,
        reference: Option<&str>,
        source: Option<&str>,
    ) -> (r: Option<Vec<(String, String)>>)
        ensures
            r is Some <==> (import is Some && registry_name is Some && registry_host is Some && user is Some && token is Some
                && repo is Some && reference is Some),
            r matches Some(v) ==> crate::plugins::authenticate::pairs_view(v@) == seq![
                ("REGISTRY_NAME"@, registry_name->0@),
                ("REGISTRY_HOST"@, registry_host->0@),
                ("REGISTRY_USER"@, user->0@),
                ("REGISTRY_TOKEN"@, token->0@),
                ("REPO"@, repo->0@),
                ("REFERENCE"@, reference->0@),
            ] + (match source {
                Some(s) => seq![("SOURCE"@, s@)],
                None => Seq::empty(),
            }),
    {
        if import.is_none() {
            return None;
        }
        match (registry_name, registry_host, user, token, repo, reference) {
            (Some(name), Some(host), Some(user), Some(token), Some(repo), Some(reference)) => {
                let mut v: Vec<(String, String)> = Vec::new();
                v.push((String::from_str("REGISTRY_NAME"), String::from_str(name)));
                v.push((String::from_str("REGISTRY_HOST"), String::from_str(host)));
                v.push((String::from_str("REGISTRY_USER"), String::from_str(user)));
                v.push((String::from_str("REGISTRY_TOKEN"), String::from_str(token)));
                v.push((String::from_str("REPO"), String::from_str(repo)));
                v.push((String::from_str("REFERENCE"), String::from_str(reference)));
                if let Some(s) = source {
                    v.push((String::from_str("SOURCE"), String::from_str(s)));
                }
                proof {
                    let sv: Seq<(Seq<char>, Seq<char>)> = match source {
                        Some(s) => seq![("SOURCE"@, s@)],
                        None => Seq::empty(),
                    };
                    assert(crate::plugins::authenticate::pairs_view(v@) =~= seq![
                        ("REGISTRY_NAME"@, name@),
                        ("REGISTRY_HOST"@, host@),
                        ("REGISTRY_USER"@, user@),
                        ("REGISTRY_TOKEN"@, token@),
                        ("REPO"@, repo@),
                        ("REFERENCE"@, reference@),
                    ] + sv);
                }
                Some(v)
            },
            _ => None,
        }
    }
}

proof fn lemma_first_prefix(ds: Seq<Descriptor>, n: int, os: Seq<char>, arch: Seq<char>, k: int)
    requires
        0 < n <= ds.len(),
        first_for_platform(ds.take(n), os, arch) == Some(k),
    ensures
        first_for_platform(ds, os, arch) == Some(k),
    decreases ds.len() - n,
{
    if n < ds.len() {
        assert(ds.take(n + 1).drop_last() == ds.take(n));
        lemma_first_prefix(ds, n + 1, os, arch, k);
    } else {
        assert(ds.take(n) == ds);
    }
}

} // verus!
