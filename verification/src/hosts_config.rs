//! containerd registry host configuration (`hosts.toml`): which hosts a
//! mirror serves, what they may do and which headers they send.
use vstd::prelude::*;
use crate::consts::{ACCEPT_IF_SUFFIX_HEADER, ENABLE_MIRROR_IF_SUFFIX_HEADER, UPGRADE_IF_STREAMABLE_HEADER};

verus! {

/// Model of a [`RegistryHost`].
pub struct RegistryHostModel {
    pub address: Seq<char>,
    pub resolve: bool,
    pub pull: bool,
    pub push: bool,
    pub skip_verify: bool,
    pub headers: Seq<(Seq<char>, Seq<char>)>,
}

/// Model of a [`HostsConfig`].
pub struct HostsConfigModel {
    pub server: Option<Seq<char>>,
    pub hosts: Seq<RegistryHostModel>,
}

/// A `[host."<address>"]` entry of a containerd hosts config.
pub struct RegistryHost {
    pub address: String,
    pub resolve: bool,
    pub pull: bool,
    pub push: bool,
    pub skip_verify: bool,
    pub headers: Vec<(String, String)>,
}

/// A containerd hosts config: an optional upstream `server` and its mirror hosts.
pub struct HostsConfig {
    pub server: Option<String>,
    pub hosts: Vec<RegistryHost>,
}

pub open spec fn headers_view(h: Seq<(String, String)>) -> Seq<(Seq<char>, Seq<char>)> {
    h.map_values(|p: (String, String)| (p.0@, p.1@))
}

impl View for RegistryHost {
    type V = RegistryHostModel;

    open spec fn view(&self) -> RegistryHostModel {
        RegistryHostModel {
            address: self.address@,
            resolve: self.resolve,
            pull: self.pull,
            push: self.push,
            skip_verify: self.skip_verify,
            headers: headers_view(self.headers@),
        }
    }
}

impl View for HostsConfig {
    type V = HostsConfigModel;

    open spec fn view(&self) -> HostsConfigModel {
        HostsConfigModel {
            server: match self.server {
                Some(s) => Some(s@),
                None => None,
            },
            hosts: self.hosts@.map_values(|h: RegistryHost| h@),
        }
    }
}

impl RegistryHost {
    /// A host at `address` with no capabilities and no headers.
    pub fn new(address: &str) -> (h: RegistryHost)
        ensures
            h@ == (RegistryHostModel {
                address: address@,
                resolve: false,
                pull: false,
                push: false,
                skip_verify: false,
                headers: Seq::empty(),
            }),
    {
        let h = RegistryHost {
            address: String::from_str(address),
            resolve: false,
            pull: false,
            push: false,
            skip_verify: false,
            headers: Vec::new(),
        };
        assert(headers_view(h.headers@) == Seq::<(Seq<char>, Seq<char>)>::empty());
        h
    }

    /// Allows the host to resolve tags to digests.
    pub fn enable_resolve(self) -> (h: RegistryHost)
        ensures
            h@ == (RegistryHostModel { resolve: true, ..self@ }),
    {
        RegistryHost { resolve: true, ..self }
    }

    /// Allows the host to serve pulls.
    pub fn enable_pull(self) -> (h: RegistryHost)
        ensures
            h@ == (RegistryHostModel { pull: true, ..self@ }),
    {
        RegistryHost { pull: true, ..self }
    }

    /// Allows the host to accept pushes.
    pub fn enable_push(self) -> (h: RegistryHost)
        ensures
            h@ == (RegistryHostModel { push: true, ..self@ }),
    {
        RegistryHost { push: true, ..self }
    }

    /// Skips TLS verification for this host.
    pub fn skip_verify(self) -> (h: RegistryHost)
        ensures
            h@ == (RegistryHostModel { skip_verify: true, ..self@ }),
    {
        RegistryHost { skip_verify: true, ..self }
    }

    /// Adds a header that requests to this host carry.
    pub fn add_header(self, name: &str, value: &str) -> (h: RegistryHost)
        ensures
            h@ == (RegistryHostModel {
                headers: self@.headers.push((name@, value@)),
                ..self@
            }),
    {
        let mut headers = self.headers;
        let ghost old_headers = headers@;
        headers.push((String::from_str(name), String::from_str(value)));
        assert(headers_view(headers@) == headers_view(old_headers).push((name@, value@)));
        RegistryHost { headers, ..self }
    }
}

impl HostsConfig {
    /// A config for the upstream `server` (if any) with no hosts yet.
    pub fn new(server: Option<&str>) -> (c: HostsConfig)
        ensures
            c@ == (HostsConfigModel {
                server: match server {
                    Some(s) => Some(s@),
                    None => None,
                },
                hosts: Seq::empty(),
            }),
    {
        let c = HostsConfig {
            server: match server {
                Some(s) => Some(String::from_str(s)),
                None => None,
            },
            hosts: Vec::new(),
        };
        assert(c.hosts@.map_values(|h: RegistryHost| h@) == Seq::<RegistryHostModel>::empty());
        c
    }

    /// Adds a host to this config.
    pub fn add_host(self, host: RegistryHost) -> (c: HostsConfig)
        ensures
            c@ == (HostsConfigModel { hosts: self@.hosts.push(host@), ..self@ }),
    {
        let mut hosts = self.hosts;
        let ghost old_hosts = hosts@;
        let ghost hv = host@;
        hosts.push(host);
        assert(hosts@.map_values(|h: RegistryHost| h@) == old_hosts.map_values(
            |h: RegistryHost| h@,
        ).push(hv));
        HostsConfig { hosts, ..self }
    }
}

/// Headers a default mirror host sends: the suffix it accepts and enables
/// the mirror for, and the streamable format it asks for.
pub open spec fn default_host_headers(
    suffix_match: Option<Seq<char>>,
    streamable_format: Option<Seq<char>>,
) -> Seq<(Seq<char>, Seq<char>)> {
    let a: Seq<(Seq<char>, Seq<char>)> = match suffix_match {
        Some(s) => seq![(ACCEPT_IF_SUFFIX_HEADER@, s), (ENABLE_MIRROR_IF_SUFFIX_HEADER@, s)],
        None => Seq::empty(),
    };
    match streamable_format {
        Some(f) => a.push((UPGRADE_IF_STREAMABLE_HEADER@, f)),
        None => a,
    }
}

/// Headers a mirror host sends: the streamable format it asks for.
pub open spec fn mirror_host_headers(format: Option<Seq<char>>) -> Seq<(Seq<char>, Seq<char>)> {
    match format {
        Some(f) => seq![(UPGRADE_IF_STREAMABLE_HEADER@, f)],
        None => Seq::empty(),
    }
}

pub open spec fn opt_view(o: Option<&str>) -> Option<Seq<char>> {
    match o {
        Some(s) => Some(s@),
        None => None,
    }
}

/// Pointer struct for host config implementation for a default host mirror,
///
/// A default mirror is responsible for detecting whether or not an incoming
/// registry request can be accepted.
pub struct DefaultHost;

impl DefaultHost {
    /// Returns the hosts config for the default host mirror: no upstream
    /// server, and one host at `address` that resolves, skips TLS
    /// verification when `insecure`, and carries the suffix and streamable
    /// format headers.
    pub fn get_hosts_config(
        address: &str,
        insecure: bool,
        suffix_match: Option<&str>,
        streamable_format: Option<&str>,
    ) -> (c: HostsConfig)
        ensures
            c@.server is None,
            c@.hosts == seq![
                RegistryHostModel {
                    address: address@,
                    resolve: true,
                    pull: false,
                    push: false,
                    skip_verify: insecure,
                    headers: default_host_headers(opt_view(suffix_match), opt_view(streamable_format)),
                },
            ],
    {
        let config = HostsConfig::new(None);
        let mut host = RegistryHost::new(address).enable_resolve();
        if insecure {
            host = host.skip_verify();
        }
        if let Some(suffix) = suffix_match {
            host = host.add_header(ACCEPT_IF_SUFFIX_HEADER, suffix);
            host = host.add_header(ENABLE_MIRROR_IF_SUFFIX_HEADER, suffix);
        }
        if let Some(format) = streamable_format {
            host = host.add_header(UPGRADE_IF_STREAMABLE_HEADER, format);
        }
        assert(host@.headers =~= default_host_headers(
            opt_view(suffix_match),
            opt_view(streamable_format),
        ));
        let c = config.add_host(host);
        assert(c@.hosts =~= seq![c@.hosts[0]]);
        c
    }
}

/// Pointer struct for creating a hosts config for a mirror host.
pub struct MirrorHost;

impl MirrorHost {
    /// Returns a host config for a mirror host: upstream `server`, and one
    /// host at `host` that resolves and pulls, skips TLS verification when
    /// `insecure`, and asks for the streamable format when one is given.
    pub fn get_hosts_config(
        server: &str,
        host: &str,
        insecure: bool,
        upgrade_streamable_format: Option<&str>,
    ) -> (c: HostsConfig)
        ensures
            c@.server == Some(server@),
            c@.hosts == seq![
                RegistryHostModel {
                    address: host@,
                    resolve: true,
                    pull: true,
                    push: false,
                    skip_verify: insecure,
                    headers: mirror_host_headers(opt_view(upgrade_streamable_format)),
                },
            ],
    {
        let config = HostsConfig::new(Some(server));
        let mut h = RegistryHost::new(host).enable_resolve().enable_pull();
        if insecure {
            h = h.skip_verify();
        }
        if let Some(format) = upgrade_streamable_format {
            h = h.add_header(UPGRADE_IF_STREAMABLE_HEADER, format);
        }
        let c = config.add_host(h);
        assert(c@.hosts =~= seq![c@.hosts[0]]);
        c
    }
}

} // verus!

verus! {

/// Host capabilities for configuring hosts.toml, as read from `.host`
/// attribute values.
#[derive(Debug, PartialEq, Eq, Clone, Copy)]
pub enum HostCapability {
    /// The host can resolve a tag to a digest.
    Resolve,
    /// The host can push content to the registry.
    Push,
    /// The host can pull content from a registry.
    Pull,
    /// Unknown token.
    Error,
}

/// Keywords of the capability lexer, in token order.
pub open spec fn capability_keywords() -> Seq<Seq<char>> {
    seq!["resolve"@, "push"@, "pull"@]
}

pub open spec fn capability_of_token(t: Option<int>) -> HostCapability {
    match t {
        Some(k) => if k == 0 {
            HostCapability::Resolve
        } else if k == 1 {
            HostCapability::Push
        } else if k == 2 {
            HostCapability::Pull
        } else {
            HostCapability::Error
        },
        None => HostCapability::Error,
    }
}

/// The capabilities named in `s` (blanks and commas skipped; anything else
/// is an error token per character).
pub open spec fn lex_capabilities(s: Seq<char>) -> Seq<HostCapability> {
    crate::lexers::lex_keywords(s, capability_keywords(), crate::lexers::Skip::BlanksAndCommas).map_values(
        |t: Option<int>| capability_of_token(t),
    )
}

impl HostCapability {
    /// Returns the tokens of `content`, e.g. `resolve, pull`.
    pub fn lex_all(content: &str) -> (out: Vec<HostCapability>)
        ensures
            out@ == lex_capabilities(content@),
    {
        let kws: [&str; 3] = ["resolve", "push", "pull"];
        proof {
            reveal_strlit("resolve");
            reveal_strlit("push");
            reveal_strlit("pull");
            assert(crate::lexers::keywords_view(kws@) =~= capability_keywords());
        }
        let toks = crate::lexers::lex_keywords_exec(content, &kws, crate::lexers::Skip::BlanksAndCommas);
        let ghost tv = toks@.map_values(|t: Option<usize>| crate::lexers::token_view(t));
        let mut out: Vec<HostCapability> = Vec::new();
        let mut i: usize = 0;
        while i < toks.len()
            invariant
                i <= toks@.len(),
                tv == toks@.map_values(|t: Option<usize>| crate::lexers::token_view(t)),
                out@ == tv.take(i as int).map_values(|t: Option<int>| capability_of_token(t)),
            decreases toks@.len() - i,
        {
            let c = match toks[i] {
                Some(0) => HostCapability::Resolve,
                Some(1) => HostCapability::Push,
                Some(2) => HostCapability::Pull,
                _ => HostCapability::Error,
            };
            assert(tv[i as int] == crate::lexers::token_view(toks@[i as int]));
            out.push(c);
            assert(tv.take(i + 1).map_values(|t: Option<int>| capability_of_token(t)) =~= tv.take(
                i as int,
            ).map_values(|t: Option<int>| capability_of_token(t)).push(capability_of_token(tv[i as int])));
            i = i + 1;
        }
        assert(tv.take(toks@.len() as int) == tv);
        out
    }
}

} // verus!

verus! {

/// A TOML basic string holding `s`: quoted, with backslashes and quotes escaped.
pub open spec fn toml_string(s: Seq<char>) -> Seq<char> {
    seq!['"'] + crate::text::replace_all(crate::text::replace_all(s, seq!['\\'], seq!['\\', '\\']), seq!['"'], seq!['\\', '"'])
        + seq!['"']
}

/// `name` added to a comma separated list `acc`.
pub open spec fn list_push(acc: Seq<char>, name: Seq<char>) -> Seq<char> {
    if acc.len() == 0 {
        name
    } else {
        acc + ", "@ + name
    }
}

/// The capabilities of a host as quoted names, in the order resolve, pull,
/// push, separated by `, `.
pub open spec fn capability_list(pull: bool, resolve: bool, push: bool) -> Seq<char> {
    let a: Seq<char> = if resolve { "\"resolve\""@ } else { Seq::empty() };
    let b: Seq<char> = if pull { list_push(a, "\"pull\""@) } else { a };
    if push { list_push(b, "\"push\""@) } else { b }
}

/// The header lines of a host: `"name" = "value"` per header.
pub open spec fn header_lines(headers: Seq<(Seq<char>, Seq<char>)>) -> Seq<char>
    decreases headers.len(),
{
    if headers.len() == 0 {
        Seq::empty()
    } else {
        header_lines(headers.drop_last()) + toml_string(headers.last().0) + " = "@ + toml_string(
            headers.last().1,
        ) + "\n"@
    }
}

/// The `[host."<address>"]` table of a host.
pub open spec fn host_table(h: RegistryHostModel) -> Seq<char> {
    "\n[host."@ + toml_string(h.address) + "]\n"@ + "capabilities = ["@ + capability_list(h.pull, h.resolve, h.push)
        + "]\n"@ + (if h.skip_verify { "skip_verify = true\n"@ } else { Seq::empty() }) + (if h.headers.len()
        > 0 {
        "[host."@ + toml_string(h.address) + ".header]\n"@ + header_lines(h.headers)
    } else {
        Seq::empty()
    })
}

/// The tables of all hosts, in order.
pub open spec fn host_tables(hosts: Seq<RegistryHostModel>) -> Seq<char>
    decreases hosts.len(),
{
    if hosts.len() == 0 {
        Seq::empty()
    } else {
        host_tables(hosts.drop_last()) + host_table(hosts.last())
    }
}

/// The `hosts.toml` text of a config: the `server` line when there is an
/// upstream server, then one table per host.
pub open spec fn hosts_toml(c: HostsConfigModel) -> Seq<char> {
    (match c.server {
        Some(s) => "server = "@ + toml_string(s) + "\n"@,
        None => Seq::empty(),
    }) + host_tables(c.hosts)
}

fn toml_string_exec(s: &str) -> (t: String)
    ensures
        t@ == toml_string(s@),
{
    proof {
        reveal_strlit("\\");
        reveal_strlit("\\\\");
        reveal_strlit("\"");
        reveal_strlit("\\\"");
    }
    assert("\\"@ =~= seq!['\\']);
    assert("\\\\"@ =~= seq!['\\', '\\']);
    assert("\""@ =~= seq!['"']);
    assert("\\\""@ =~= seq!['\\', '"']);
    let a = crate::text::replace_str(s, "\\", "\\\\");
    let b = crate::text::replace_str(a.as_str(), "\"", "\\\"");
    crate::text::cat3("\"", b.as_str(), "\"")
}

impl RegistryHost {
    fn capability_list_exec(&self) -> (s: String)
        ensures
            s@ == capability_list(self.pull, self.resolve, self.push),
    {
        let mut s = String::new();
        if self.resolve {
            s.append("\"resolve\"");
        }
        if self.pull {
            if s.unicode_len() > 0 {
                s.append(", ");
            }
            s.append("\"pull\"");
        }
        if self.push {
            if s.unicode_len() > 0 {
                s.append(", ");
            }
            s.append("\"push\"");
        }
        s
    }

    /// The `[host."<address>"]` table of this host in a `hosts.toml`.
    pub fn to_toml(&self) -> (t: String)
        ensures
            t@ == host_table(self@),
    {
        let addr = toml_string_exec(self.address.as_str());
        let mut t = crate::text::cat3("\n[host.", addr.as_str(), "]\n");
        t.append("capabilities = [");
        let caps = self.capability_list_exec();
        t.append(caps.as_str());
        t.append("]\n");
        if self.skip_verify {
            t.append("skip_verify = true\n");
        }
        let ghost before = t@;
        if self.headers.len() > 0 {
            t.append("[host.");
            t.append(addr.as_str());
            t.append(".header]\n");
            let ghost head = t@;
            let mut i: usize = 0;
            assert(headers_view(self.headers@).take(0) =~= Seq::<(Seq<char>, Seq<char>)>::empty());
            while i < self.headers.len()
                invariant
                    i <= self.headers@.len(),
                    t@ == head + header_lines(headers_view(self.headers@).take(i as int)),
                decreases self.headers@.len() - i,
            {
                let (name, value) = (&self.headers[i].0, &self.headers[i].1);
                let n = toml_string_exec(name.as_str());
                let v = toml_string_exec(value.as_str());
                let ghost hv = headers_view(self.headers@);
                assert(hv.take(i + 1).drop_last() =~= hv.take(i as int));
                assert(hv.take(i + 1).last() == (name@, value@));
                t.append(n.as_str());
                t.append(" = ");
                t.append(v.as_str());
                t.append("\n");
                i = i + 1;
            }
            assert(headers_view(self.headers@).take(self.headers@.len() as int) =~= headers_view(
                self.headers@,
            ));
        }
        t
    }
}

impl HostsConfig {
    /// The `hosts.toml` text of this config.
    pub fn to_toml(&self) -> (t: String)
        ensures
            t@ == hosts_toml(self@),
    {
        let mut t = match &self.server {
            Some(s) => {
                let q = toml_string_exec(s.as_str());
                crate::text::cat3("server = ", q.as_str(), "\n")
            },
            None => String::new(),
        };
        let ghost head = t@;
        let ghost hs = self@.hosts;
        let mut i: usize = 0;
        assert(hs.take(0) =~= Seq::<RegistryHostModel>::empty());
        while i < self.hosts.len()
            invariant
                i <= self.hosts@.len(),
                hs == self@.hosts,
                t@ == head + host_tables(hs.take(i as int)),
            decreases self.hosts@.len() - i,
        {
            let table = self.hosts[i].to_toml();
            assert(hs.take(i + 1).drop_last() =~= hs.take(i as int));
            assert(hs.take(i + 1).last() == self.hosts@[i as int]@);
            t.append(table.as_str());
            i = i + 1;
        }
        assert(hs.take(self.hosts@.len() as int) =~= hs);
        t
    }
}

} // verus!

verus! {

/// Name of a capability as written in a `.host` attribute value.
pub open spec fn capability_name(c: HostCapability) -> Seq<char> {
    match c {
        HostCapability::Resolve => "resolve"@,
        HostCapability::Push => "push"@,
        HostCapability::Pull => "pull"@,
        HostCapability::Error => Seq::empty(),
    }
}

/// A capability list as written in a `.host` attribute value: the names
/// separated by `, ` (as in `.host localhost:5000, pull, resolve`).
pub open spec fn capabilities_text(cs: Seq<HostCapability>) -> Seq<char>
    decreases cs.len(),
{
    if cs.len() == 0 {
        Seq::empty()
    } else if cs.len() == 1 {
        capability_name(cs[0])
    } else {
        capability_name(cs[0]) + ", "@ + capabilities_text(cs.drop_first())
    }
}

/// A capability's name followed by any text lexes as that capability
/// followed by the capabilities of the text.
proof fn lemma_capability_name_then(c: HostCapability, rest: Seq<char>)
    requires
        c != HostCapability::Error,
    ensures
        lex_capabilities(capability_name(c) + rest) == seq![c] + lex_capabilities(rest),
{
    reveal_strlit("resolve");
    reveal_strlit("push");
    reveal_strlit("pull");
    let kws = capability_keywords();
    let k: int = match c {
        HostCapability::Resolve => 0,
        HostCapability::Push => 1,
        _ => 2,
    };
    assert(kws[k] == capability_name(c));
    assert forall|j: int| 0 <= j < k && #[trigger] kws[j].len() > 0 implies crate::lexers::diverge(kws[j], kws[k]) by {
        assert(kws[j][0] != kws[k][0] || kws[j][2] != kws[k][2]);
    }
    crate::lexers::lemma_lex_keyword_then(kws, k, rest, crate::lexers::Skip::BlanksAndCommas);
    let f = |t: Option<int>| capability_of_token(t);
    let tail = crate::lexers::lex_keywords(rest, kws, crate::lexers::Skip::BlanksAndCommas);
    assert((seq![Some(k)] + tail).map_values(f) =~= seq![c] + tail.map_values(f));
}

/// A capability list is read back as exactly the listed capabilities: the
/// separators of a `.host` value add no tokens.
pub proof fn lemma_listed_capabilities_lex(cs: Seq<HostCapability>)
    requires
        forall|i: int| 0 <= i < cs.len() ==> cs[i] != HostCapability::Error,
    ensures
        lex_capabilities(capabilities_text(cs)) == cs,
    decreases cs.len(),
{
    let mode = crate::lexers::Skip::BlanksAndCommas;
    let kws = capability_keywords();
    if cs.len() == 0 {
        assert(lex_capabilities(Seq::<char>::empty()) =~= Seq::<HostCapability>::empty());
    } else if cs.len() == 1 {
        lemma_capability_name_then(cs[0], Seq::empty());
        assert(capability_name(cs[0]) + Seq::<char>::empty() =~= capability_name(cs[0]));
        assert(lex_capabilities(Seq::<char>::empty()) =~= Seq::<HostCapability>::empty());
        assert(cs =~= seq![cs[0]]);
    } else {
        reveal_strlit(", ");
        let rest = cs.drop_first();
        let rt = capabilities_text(rest);
        lemma_listed_capabilities_lex(rest);
        assert(capabilities_text(cs) =~= capability_name(cs[0]) + (", "@ + rt));
        lemma_capability_name_then(cs[0], ", "@ + rt);
        assert(", "@ + rt =~= seq![','] + (seq![' '] + rt));
        crate::lexers::lemma_lex_skipped_then(',', seq![' '] + rt, kws, mode);
        crate::lexers::lemma_lex_skipped_then(' ', rt, kws, mode);
        assert(cs =~= seq![cs[0]] + rest);
    }
}

} // verus!

verus! {

/// The directory name containerd reads a registry's host config from: the
/// upstream server without its `https://` or `http://` scheme and trailing
/// `/`, or `_default` for a config without a server.
pub open spec fn host_dir_name(server: Option<Seq<char>>) -> Seq<char> {
    match server {
        Some(s) => crate::text::trim_suffix_all(
            crate::text::trim_prefix_all(crate::text::trim_prefix_all(s, "https://"@), "http://"@),
            "/"@,
        ),
        None => "_default"@,
    }
}

/// Where, below the system root, a config's `hosts.toml` is written.
pub open spec fn hosts_toml_location(server: Option<Seq<char>>) -> Seq<char> {
    "etc/containerd/certs.d/"@ + host_dir_name(server) + "/hosts.toml"@
}

/// A config counts as installed when the text found at its location is
/// the text an install writes.
pub open spec fn installed_text(c: HostsConfigModel, found: Option<Seq<char>>) -> bool {
    found == Some(hosts_toml(c))
}

impl HostsConfig {
    /// The location of this config's `hosts.toml` below the system root.
    pub fn hosts_toml_location(&self) -> (p: String)
        ensures
            p@ == hosts_toml_location(self@.server),
    {
        proof {
            reveal_strlit("/");
        }
        let dir = match &self.server {
            Some(s) => {
                let a = crate::text::trim_start_matches(s.as_str(), "https://");
                let b = crate::text::trim_start_matches(a.as_str(), "http://");
                crate::text::trim_end_matches(b.as_str(), "/")
            },
            None => String::from_str("_default"),
        };
        crate::text::cat3("etc/containerd/certs.d/", dir.as_str(), "/hosts.toml")
    }

    /// Whether the text `found` at this config's location (none when no
    /// file is there) shows the config installed.
    pub fn is_installed(&self, found: Option<&str>) -> (b: bool)
        ensures
            b == installed_text(self@, opt_view(found)),
    {
        match found {
            Some(text) => {
                let t = self.to_toml();
                crate::text::str_eq(text, t.as_str())
            },
            None => false,
        }
    }
}

/// What a check reads after an install or a removal: the text an install
/// writes shows the config installed, and no text (after a removal) shows
/// it missing.
pub proof fn lemma_installed_after_install_or_removal(c: HostsConfigModel)
    ensures
        installed_text(c, Some(hosts_toml(c))),
        !installed_text(c, None),
{
}

} // verus!
