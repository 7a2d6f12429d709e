# lifec_registry

Client-side extensions for container registries: the decisions of a
registry mirror/proxy, verified with Verus.

- `src/` is the verified library: the proxy's request and response types
  and their status codes (`proxy/`), the decisions of the runtime plugins
  (`plugins/`), containerd host configs and their `hosts.toml` text
  (`hosts_config.rs`), the lexers of proxy definitions (`lexers.rs`,
  `proxy/methods.rs`, `proxy/resources.rs`, `object.rs`), content digests
  (`content.rs`) and the string toolkit they are written in (`text.rs`).
  Calls into `sha2`, `serde_urlencoded`, `hyper::Uri` and `std::path` stand
  behind small trusted wrappers whose contracts name what they return.
- `tests/` runs the library on concrete values.
- `app/` is the unverified server side: serde forms of the library's types,
  poem handlers, hyper requests to the upstream registry and the
  `hosts.toml` files on disk.
