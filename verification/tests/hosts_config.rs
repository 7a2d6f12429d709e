use lifec_registry::hosts_config::{DefaultHost, HostCapability, HostsConfig, MirrorHost, RegistryHost};

fn header_pairs(h: &RegistryHost) -> Vec<(&str, &str)> {
    h.headers.iter().map(|(n, v)| (n.as_str(), v.as_str())).collect()
}

#[test]
fn default_host_config_resolves_with_suffix_headers() {
    let c = DefaultHost::get_hosts_config("http://localhost:8578", true, Some("azurecr.io"), Some("nydus"));
    assert!(c.server.is_none());
    assert_eq!(c.hosts.len(), 1);
    let h = &c.hosts[0];
    assert_eq!(h.address, "http://localhost:8578");
    assert!(h.resolve);
    assert!(!h.pull);
    assert!(!h.push);
    assert!(h.skip_verify);
    assert_eq!(
        header_pairs(h),
        vec![
            ("x-ms-accept-if-suffix", "azurecr.io"),
            ("x-ms-enable-mirror-if-suffix", "azurecr.io"),
            ("x-ms-upgrade-if-streamable", "nydus"),
        ]
    );
}

#[test]
fn default_host_config_without_options() {
    let c = DefaultHost::get_hosts_config("http://h", false, None, None);
    let h = &c.hosts[0];
    assert!(!h.skip_verify);
    assert!(h.headers.is_empty());
}

#[test]
fn mirror_host_config_pulls_from_server() {
    let c = MirrorHost::get_hosts_config("test.azurecr.io", "http://test", true, Some("overlaybd"));
    assert_eq!(c.server.as_deref(), Some("test.azurecr.io"));
    assert_eq!(c.hosts.len(), 1);
    let h = &c.hosts[0];
    assert_eq!(h.address, "http://test");
    assert!(h.resolve && h.pull && !h.push && h.skip_verify);
    assert_eq!(header_pairs(h), vec![("x-ms-upgrade-if-streamable", "overlaybd")]);
}

#[test]
fn hosts_toml_of_the_documented_mirror() {
    let c = MirrorHost::get_hosts_config("https://registry-1.docker.io", "http://localhost:5000", true, None);
    assert_eq!(
        c.to_toml(),
        "server = \"https://registry-1.docker.io\"\n\n[host.\"http://localhost:5000\"]\ncapabilities = [\"resolve\", \"pull\"]\nskip_verify = true\n"
    );
}

#[test]
fn hosts_toml_with_headers_and_escapes() {
    let host = RegistryHost::new("http://a\"b")
        .enable_push()
        .add_header("x-h", "v\\1");
    let c = HostsConfig::new(None).add_host(host);
    assert_eq!(
        c.to_toml(),
        "\n[host.\"http://a\\\"b\"]\ncapabilities = [\"push\"]\n[host.\"http://a\\\"b\".header]\n\"x-h\" = \"v\\\\1\"\n"
    );
}

#[test]
fn host_table_lists_all_capabilities_in_order() {
    let h = RegistryHost::new("h").enable_push().enable_pull().enable_resolve();
    assert_eq!(h.to_toml(), "\n[host.\"h\"]\ncapabilities = [\"resolve\", \"pull\", \"push\"]\n");
    let none = RegistryHost::new("h");
    assert_eq!(none.to_toml(), "\n[host.\"h\"]\ncapabilities = []\n");
}

#[test]
fn builders_accumulate_hosts_and_headers() {
    let c = HostsConfig::new(Some("s"))
        .add_host(RegistryHost::new("a"))
        .add_host(RegistryHost::new("b").add_header("k1", "v1").add_header("k2", "v2"));
    assert_eq!(c.hosts.len(), 2);
    assert_eq!(c.hosts[0].address, "a");
    assert_eq!(header_pairs(&c.hosts[1]), vec![("k1", "v1"), ("k2", "v2")]);
}

#[test]
fn host_capabilities_lex() {
    assert_eq!(
        HostCapability::lex_all("resolve, pull push"),
        vec![HostCapability::Resolve, HostCapability::Pull, HostCapability::Push]
    );
    let bad = HostCapability::lex_all("pux");
    assert!(!bad.is_empty());
    assert!(bad.iter().all(|c| *c == HostCapability::Error));
    assert_eq!(HostCapability::lex_all(""), vec![]);
    assert_eq!(HostCapability::lex_all("\tpush\n"), vec![HostCapability::Push]);
}

#[test]
fn documented_host_capabilities() {
    // `.host localhost:5000, pull, resolve, push` from the mirror plugin docs.
    assert_eq!(
        HostCapability::lex_all("pull, resolve, push"),
        vec![HostCapability::Pull, HostCapability::Resolve, HostCapability::Push]
    );
}

#[test]
fn hosts_toml_location_and_installed_check() {
    let mirror = MirrorHost::get_hosts_config("https://test.azurecr.io/", "http://test", true, None);
    assert_eq!(mirror.hosts_toml_location(), "etc/containerd/certs.d/test.azurecr.io/hosts.toml");
    let default = DefaultHost::get_hosts_config("http://localhost:8578", true, None, None);
    assert_eq!(default.hosts_toml_location(), "etc/containerd/certs.d/_default/hosts.toml");
    let text = mirror.to_toml();
    assert!(mirror.is_installed(Some(&text)));
    assert!(!mirror.is_installed(None));
    assert!(!mirror.is_installed(Some("server = \"x\"\n")));
}
