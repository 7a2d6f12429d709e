//! `/config`: installing, checking and removing the mirror's containerd
//! host config for a registry namespace.
use vstd::prelude::*;
use crate::error::{Error, ErrorKind};
use crate::http::{HttpMethod, STATUS_OK, STATUS_METHOD_NOT_ALLOWED, STATUS_NOT_FOUND, STATUS_INTERNAL_SERVER_ERROR};
use crate::hosts_config::{HostsConfig, HostsConfigModel, installed_text, hosts_toml, RegistryHostModel, DefaultHost, MirrorHost, default_host_headers, mirror_host_headers};
use crate::text::cat;

verus! {

/// Query parameters of a `/config` request.
pub struct ConfigRequest {
    /// Namespace of the registry (`_default` for the default mirror).
    pub ns: String,
    /// Stream format to configure.
    pub stream_format: Option<String>,
    /// Suffix to enable.
    pub enable_suffix: Option<String>,
    /// Enable containerd config.
    pub enable_containerd: Option<bool>,
}

/// Answer to a `/config` request.
pub struct ConfigResponse {
    /// True if the config was installed.
    pub installed: bool,
    /// Error.
    pub error: Option<Error>,
}

/// Status a response is sent with: OK without an error when done,
/// METHOD_NOT_ALLOWED for an invalid operation, NOT_FOUND for a recoverable
/// error, INTERNAL_SERVER_ERROR otherwise.
pub open spec fn response_status(done: bool, error: Option<ErrorKind>) -> u16 {
    if done && error is None {
        STATUS_OK
    } else if error == Some(ErrorKind::InvalidOperation) {
        STATUS_METHOD_NOT_ALLOWED
    } else if error == Some(ErrorKind::Recoverable) {
        STATUS_NOT_FOUND
    } else {
        STATUS_INTERNAL_SERVER_ERROR
    }
}

pub open spec fn error_kind(e: Option<Error>) -> Option<ErrorKind> {
    match e {
        Some(e) => Some(e.kind),
        None => None,
    }
}

pub(crate) fn status_for(done: bool, error: &Option<Error>) -> (status: u16)
    ensures
        status == response_status(done, error_kind(*error)),
{
    match error {
        None => if done {
            STATUS_OK
        } else {
            STATUS_INTERNAL_SERVER_ERROR
        },
        Some(e) => if e.is_invalid_operation() {
            STATUS_METHOD_NOT_ALLOWED
        } else if e.is_recoverable() {
            STATUS_NOT_FOUND
        } else {
            STATUS_INTERNAL_SERVER_ERROR
        },
    }
}

impl ConfigResponse {
    /// Creates a new ok response.
    pub fn ok() -> (r: ConfigResponse)
        ensures
            r.installed,
            r.error is None,
    {
        ConfigResponse { installed: true, error: None }
    }

    /// Creates a new ok uninstalled response.
    pub fn ok_uninstalled() -> (r: ConfigResponse)
        ensures
            !r.installed,
            r.error is None,
    {
        ConfigResponse { installed: false, error: None }
    }

    /// Creates a new error response.
    pub fn error(error: Error) -> (r: ConfigResponse)
        ensures
            !r.installed,
            r.error == Some(error),
    {
        ConfigResponse { installed: false, error: Some(error) }
    }

    /// Status this response is sent with.
    pub fn status_code(&self) -> (status: u16)
        ensures
            status == response_status(self.installed, error_kind(self.error)),
    {
        status_for(self.installed, &self.error)
    }
}

/// What a `/config` request asks the mirror to do with the host config.
#[derive(Debug, PartialEq, Eq, Clone, Copy)]
pub enum ConfigAction {
    /// Report whether the config is installed (GET).
    Check,
    /// Install the config, and the containerd config when asked (PUT).
    Install { enable_containerd: bool },
    /// Remove the config (DELETE).
    Uninstall,
}

/// The address the mirror is reached at: `http://` and the app host, by
/// default `localhost:8578`.
pub open spec fn app_host_url(app_host: Option<Seq<char>>) -> Seq<char> {
    "http://"@ + match app_host {
        Some(h) => h,
        None => "localhost:8578"@,
    }
}

pub open spec fn opt_str(o: Option<String>) -> Option<Seq<char>> {
    match o {
        Some(s) => Some(s@),
        None => None,
    }
}

/// The host config a `/config` request is about: a mirror host for a named
/// namespace, or the default host (suffix `azurecr.io` unless another is
/// given) for `_default`; either way served from the app host, insecure.
pub open spec fn requested_hosts_config(
    ns: Seq<char>,
    stream_format: Option<Seq<char>>,
    enable_suffix: Option<Seq<char>>,
    app_host: Option<Seq<char>>,
) -> HostsConfigModel {
    if ns != "_default"@ {
        HostsConfigModel {
            server: Some(ns),
            hosts: seq![
                RegistryHostModel {
                    address: app_host_url(app_host),
                    resolve: true,
                    pull: true,
                    push: false,
                    skip_verify: true,
                    headers: mirror_host_headers(stream_format),
                },
            ],
        }
    } else {
        HostsConfigModel {
            server: None,
            hosts: seq![
                RegistryHostModel {
                    address: app_host_url(app_host),
                    resolve: true,
                    pull: false,
                    push: false,
                    skip_verify: true,
                    headers: default_host_headers(
                        Some(
                            match enable_suffix {
                                Some(s) => s,
                                None => "azurecr.io"@,
                            },
                        ),
                        stream_format,
                    ),
                },
            ],
        }
    }
}

pub(crate) fn opt_as_str(o: &Option<String>) -> (r: Option<&str>)
    ensures
        crate::hosts_config::opt_view(r) == opt_str(*o),
{
    match o {
        Some(s) => Some(s.as_str()),
        None => None,
    }
}

impl ConfigRequest {
    /// Returns the host config this request is about, for a mirror reached
    /// at `app_host` (the `app_host` symbol, if set).
    pub fn hosts_config(&self, app_host: Option<&str>) -> (c: HostsConfig)
        ensures
            c@ == requested_hosts_config(
                self.ns@,
                opt_str(self.stream_format),
                opt_str(self.enable_suffix),
                crate::hosts_config::opt_view(app_host),
            ),
    {
        let host = match app_host {
            Some(h) => h,
            None => "localhost:8578",
        };
        let url = cat("http://", host);
        let stream_format = opt_as_str(&self.stream_format);
        proof {
            reveal_strlit("_default");
            reveal_strlit("localhost:8578");
        }
        let is_default = crate::text::str_eq(self.ns.as_str(), "_default");
        if !is_default {
            let c = MirrorHost::get_hosts_config(self.ns.as_str(), url.as_str(), true, stream_format);
            assert(c@.hosts == requested_hosts_config(
                self.ns@,
                opt_str(self.stream_format),
                opt_str(self.enable_suffix),
                crate::hosts_config::opt_view(app_host),
            ).hosts);
            c
        } else {
            let suffix = match &self.enable_suffix {
                Some(s) => s.as_str(),
                None => "azurecr.io",
            };
            let c = DefaultHost::get_hosts_config(url.as_str(), true, Some(suffix), stream_format);
            assert(c@.hosts == requested_hosts_config(
                self.ns@,
                opt_str(self.stream_format),
                opt_str(self.enable_suffix),
                crate::hosts_config::opt_view(app_host),
            ).hosts);
            c
        }
    }

    /// Decides what a `/config` request with `method` asks for: GET checks,
    /// PUT installs (with the containerd config when `enable_containerd` is
    /// `Some(true)`), DELETE uninstalls; any other method is an invalid
    /// operation.
    pub fn action(&self, method: HttpMethod) -> (r: Result<ConfigAction, Error>)
        ensures
            method == HttpMethod::Get ==> r == Ok::<ConfigAction, Error>(ConfigAction::Check),
            method == HttpMethod::Put ==> r == Ok::<ConfigAction, Error>(
                ConfigAction::Install { enable_containerd: self.enable_containerd == Some(true) },
            ),
            method == HttpMethod::Delete ==> r == Ok::<ConfigAction, Error>(ConfigAction::Uninstall),
            !(method == HttpMethod::Get || method == HttpMethod::Put || method
                == HttpMethod::Delete) ==> (r matches Err(e) && e.kind == ErrorKind::InvalidOperation
                && e.message@ == "unsupported method"@),
    {
        match method {
            HttpMethod::Get => Ok(ConfigAction::Check),
            HttpMethod::Put => Ok(
                ConfigAction::Install {
                    enable_containerd: match self.enable_containerd {
                        Some(b) => b,
                        None => false,
                    },
                },
            ),
            HttpMethod::Delete => Ok(ConfigAction::Uninstall),
            _ => Err(Error::invalid_operation("unsupported method")),
        }
    }
}

impl ConfigAction {
    /// The answer once the action was carried out: `done` is whether the
    /// config was found installed (check) or the install/uninstall
    /// succeeded. A missing config is a recoverable error; a failed
    /// install/uninstall is a system environment error.
    pub fn outcome(&self, done: bool) -> (r: Result<ConfigResponse, Error>)
        ensures
            r is Ok <==> done,
            done ==> (r matches Ok(resp) && resp.installed && resp.error is None),
            !done && *self == ConfigAction::Check ==> (r matches Err(e) && e.kind
                == ErrorKind::Recoverable && e.message@ == "config is not installed"@),
            !done && *self != ConfigAction::Check ==> (r matches Err(e) && e.kind
                == ErrorKind::SystemEnvironment),
    {
        if done {
            Ok(ConfigResponse::ok())
        } else {
            match self {
                ConfigAction::Check => Err(Error::recoverable_error("config is not installed")),
                _ => Err(Error::system_environment()),
            }
        }
    }
}

/// The response a failed `/config` request is answered with.
pub fn config_error_response(result: Result<ConfigResponse, Error>) -> (r: ConfigResponse)
    ensures
        match result {
            Ok(resp) => r == resp,
            Err(e) => !r.installed && r.error == Some(e),
        },
{
    match result {
        Ok(resp) => resp,
        Err(e) => ConfigResponse::error(e),
    }
}

/// A GET after a PUT of `/config` reports the config installed, and after
/// a DELETE reports it missing: the PUT writes the text of the requested
/// config, which the check of the same request reads as installed (so
/// [`ConfigAction::outcome`] of the check is `Ok`); after the DELETE no text
/// is found, which reads as not installed (so the check is the recoverable
/// "config is not installed").
pub proof fn lemma_check_after_put_and_delete(
    ns: Seq<char>,
    stream_format: Option<Seq<char>>,
    enable_suffix: Option<Seq<char>>,
    app_host: Option<Seq<char>>,
)
    ensures
        installed_text(
            requested_hosts_config(ns, stream_format, enable_suffix, app_host),
            Some(hosts_toml(requested_hosts_config(ns, stream_format, enable_suffix, app_host))),
        ),
        !installed_text(requested_hosts_config(ns, stream_format, enable_suffix, app_host), None),
{
    crate::hosts_config::lemma_installed_after_install_or_removal(
        requested_hosts_config(ns, stream_format, enable_suffix, app_host),
    );
}

} // verus!

verus! {

/// The host a `/config` request configures sends the requested stream
/// format in `x-ms-upgrade-if-streamable`; for the default mirror (`_default`)
/// it first sends the suffix to enable (by default `azurecr.io`) in
/// `x-ms-accept-if-suffix` and `x-ms-enable-mirror-if-suffix`. It is served
/// insecurely from the app host (by default `localhost:8578`), resolves,
/// and pulls unless it is the default mirror.
pub proof fn lemma_requested_host_headers(
    ns: Seq<char>,
    stream_format: Option<Seq<char>>,
    enable_suffix: Option<Seq<char>>,
    app_host: Option<Seq<char>>,
)
    ensures
        ({
            let c = requested_hosts_config(ns, stream_format, enable_suffix, app_host);
            let sfx = match enable_suffix {
                Some(s) => s,
                None => "azurecr.io"@,
            };
            let fmt: Seq<(Seq<char>, Seq<char>)> = match stream_format {
                Some(f) => seq![("x-ms-upgrade-if-streamable"@, f)],
                None => Seq::empty(),
            };
            &&& c.hosts.len() == 1
            &&& c.hosts[0].address == "http://"@ + match app_host {
                Some(h) => h,
                None => "localhost:8578"@,
            }
            &&& c.hosts[0].resolve
            &&& c.hosts[0].skip_verify
            &&& !c.hosts[0].push
            &&& ns == "_default"@ ==> {
                &&& c.server is None
                &&& !c.hosts[0].pull
                &&& c.hosts[0].headers == seq![
                    ("x-ms-accept-if-suffix"@, sfx),
                    ("x-ms-enable-mirror-if-suffix"@, sfx),
                ] + fmt
            }
            &&& ns != "_default"@ ==> {
                &&& c.server == Some(ns)
                &&& c.hosts[0].pull
                &&& c.hosts[0].headers == fmt
            }
        }),
{
    reveal_strlit("x-ms-accept-if-suffix");
    reveal_strlit("x-ms-enable-mirror-if-suffix");
    reveal_strlit("x-ms-upgrade-if-streamable");
    let c = requested_hosts_config(ns, stream_format, enable_suffix, app_host);
    let sfx = match enable_suffix {
        Some(s) => s,
        None => "azurecr.io"@,
    };
    let fmt: Seq<(Seq<char>, Seq<char>)> = match stream_format {
        Some(f) => seq![("x-ms-upgrade-if-streamable"@, f)],
        None => Seq::empty(),
    };
    assert(crate::consts::ACCEPT_IF_SUFFIX_HEADER@ == "x-ms-accept-if-suffix"@);
    assert(crate::consts::ENABLE_MIRROR_IF_SUFFIX_HEADER@ == "x-ms-enable-mirror-if-suffix"@);
    assert(crate::consts::UPGRADE_IF_STREAMABLE_HEADER@ == "x-ms-upgrade-if-streamable"@);
    if ns == "_default"@ {
        assert(c.hosts[0].headers =~= seq![
            ("x-ms-accept-if-suffix"@, sfx),
            ("x-ms-enable-mirror-if-suffix"@, sfx),
        ] + fmt);
    } else {
        assert(c.hosts[0].headers =~= fmt);
    }
}

} // verus!
