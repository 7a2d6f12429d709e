use lifec_registry::error::{Error, ErrorKind};
use lifec_registry::http::HttpMethod;
use lifec_registry::proxy::config::{config_error_response, ConfigAction, ConfigRequest, ConfigResponse};

fn request(ns: &str) -> ConfigRequest {
    ConfigRequest { ns: String::from(ns), stream_format: None, enable_suffix: None, enable_containerd: None }
}

#[test]
fn config_actions_by_method() {
    let req = request("test.azurecr.io");
    assert_eq!(req.action(HttpMethod::Get).ok(), Some(ConfigAction::Check));
    assert_eq!(req.action(HttpMethod::Put).ok(), Some(ConfigAction::Install { enable_containerd: false }));
    assert_eq!(req.action(HttpMethod::Delete).ok(), Some(ConfigAction::Uninstall));
    let err = req.action(HttpMethod::Post).err().expect("post is not supported");
    assert_eq!(err.kind, ErrorKind::InvalidOperation);
    assert_eq!(err.message, "unsupported method");
    let mut with_containerd = request("x");
    with_containerd.enable_containerd = Some(true);
    assert_eq!(
        with_containerd.action(HttpMethod::Put).ok(),
        Some(ConfigAction::Install { enable_containerd: true })
    );
}

#[test]
fn handler_scenario_check_install_uninstall() {
    // GET on a namespace whose config is not installed is an error,
    // PUT installs it and DELETE removes it.
    let req = request("test.azurecr.io");
    let check = req.action(HttpMethod::Get).ok().unwrap();
    let err = check.outcome(false).err().expect("should return an error");
    assert_eq!(err.kind, ErrorKind::Recoverable);
    assert_eq!(err.message, "config is not installed");
    let resp = config_error_response(Err(err));
    assert_eq!(resp.status_code(), 404);

    let put = req.action(HttpMethod::Put).ok().unwrap();
    let ok = put.outcome(true).ok().expect("should put a config");
    assert!(ok.installed && ok.error.is_none());
    assert_eq!(ok.status_code(), 200);

    let delete = req.action(HttpMethod::Delete).ok().unwrap();
    assert!(delete.outcome(true).is_ok());
    let failed = delete.outcome(false).err().unwrap();
    assert_eq!(failed.kind, ErrorKind::SystemEnvironment);
    assert_eq!(config_error_response(Err(failed)).status_code(), 500);
}

#[test]
fn config_response_statuses() {
    assert_eq!(ConfigResponse::ok().status_code(), 200);
    assert_eq!(ConfigResponse::ok_uninstalled().status_code(), 500);
    assert_eq!(ConfigResponse::error(Error::invalid_operation("x")).status_code(), 405);
    assert_eq!(ConfigResponse::error(Error::recoverable_error("x")).status_code(), 404);
    assert_eq!(ConfigResponse::error(Error::system_environment()).status_code(), 500);
    let e = ConfigResponse::error(Error::recoverable_error("gone"));
    assert!(!e.installed);
    assert_eq!(e.error.as_ref().map(|e| e.message.as_str()), Some("gone"));
}

#[test]
fn requested_config_for_a_namespace() {
    let mut req = request("test.azurecr.io");
    req.stream_format = Some(String::from("nydus"));
    let c = req.hosts_config(Some("test"));
    assert_eq!(c.server.as_deref(), Some("test.azurecr.io"));
    let h = &c.hosts[0];
    assert_eq!(h.address, "http://test");
    assert!(h.resolve && h.pull && !h.push && h.skip_verify);
    assert_eq!(h.headers, vec![(String::from("x-ms-upgrade-if-streamable"), String::from("nydus"))]);
}

#[test]
fn requested_config_for_the_default_mirror() {
    let req = request("_default");
    let c = req.hosts_config(None);
    assert!(c.server.is_none());
    let h = &c.hosts[0];
    assert_eq!(h.address, "http://localhost:8578");
    assert!(h.resolve && !h.pull && h.skip_verify);
    assert_eq!(
        h.headers,
        vec![
            (String::from("x-ms-accept-if-suffix"), String::from("azurecr.io")),
            (String::from("x-ms-enable-mirror-if-suffix"), String::from("azurecr.io")),
        ]
    );
    let mut other = request("_default");
    other.enable_suffix = Some(String::from("example.io"));
    let c = other.hosts_config(Some("m:1"));
    assert_eq!(c.hosts[0].address, "http://m:1");
    assert_eq!(c.hosts[0].headers[0].1, "example.io");
}
