use lifec_registry::http::HttpMethod;
use lifec_registry::proxy::methods::Methods;
use lifec_registry::proxy::proxy_route::{repo_of, Blobs, BlobsUploads, Manifests, ProxyRoute, RouteParameters};
use lifec_registry::proxy::resources::Resources;
use lifec_registry::proxy::tags::tags_repository;

#[test]
fn methods_lex_with_blanks_skipped() {
    assert_eq!(Methods::lex_all("get head\tput"), vec![Methods::Get, Methods::Head, Methods::Put]);
    assert_eq!(
        Methods::lex_all("post patch delete"),
        vec![Methods::Post, Methods::Patch, Methods::Delete]
    );
    let with_comma = Methods::lex_all("get,head");
    assert_eq!(with_comma.first(), Some(&Methods::Get));
    assert_eq!(with_comma.last(), Some(&Methods::Head));
    assert!(with_comma.contains(&Methods::Error));
}

#[test]
fn parse_methods_keeps_routable_methods() {
    assert_eq!(
        Methods::parse_methods(Resources::Manifests, "head get put delete post patch"),
        vec![Methods::Head, Methods::Get, Methods::Put, Methods::Delete]
    );
    assert_eq!(
        Methods::parse_methods(Resources::Blobs, "head get put delete post patch"),
        vec![Methods::Get, Methods::Put, Methods::Post, Methods::Patch]
    );
    assert_eq!(Methods::parse_methods(Resources::Tags, "head get put"), vec![Methods::Get]);
    assert_eq!(Methods::parse_methods(Resources::Error, "get"), vec![]);
    assert_eq!(Methods::parse_methods(Resources::Manifests, "x get"), vec![Methods::Get]);
}

#[test]
fn method_names_lex_back() {
    for m in [Methods::Head, Methods::Get, Methods::Post, Methods::Put, Methods::Patch, Methods::Delete] {
        assert_eq!(Methods::lex_all(m.name()), vec![m]);
    }
}

#[test]
fn resources_lex() {
    assert_eq!(Resources::lex_all("manifests"), vec![Resources::Manifests]);
    assert_eq!(Resources::lex_all("blobstags"), vec![Resources::Blobs, Resources::Tags]);
    assert_eq!(Resources::lex_all("tags"), vec![Resources::Tags]);
    assert_eq!(Resources::lex_all(" blobs"), vec![Resources::Error, Resources::Blobs]);
}

#[test]
fn route_paths_and_idents() {
    assert_eq!(Manifests::path(), "/:repo<[a-zA-Z0-9/_-]+(?:manifests)>/:reference");
    assert_eq!(Blobs::ident(), "blobs");
    assert_eq!(BlobsUploads::ident(), "blobs_uploads");
    assert_eq!(BlobsUploads::path(), "/:repo<[a-zA-Z0-9/_-]+(?:blobs/uploads)>/");
}

#[test]
fn repository_read_from_matched_path() {
    assert_eq!(repo_of::<Manifests>("library/hello/manifests"), "library/hello");
    assert_eq!(repo_of::<Blobs>("library/hello/blobs"), "library/hello");
    assert_eq!(repo_of::<BlobsUploads>("library/hello/blobs/uploads"), "library/hello");
    assert_eq!(repo_of::<Manifests>("hello//"), "hello");
    assert!(!repo_of::<Blobs>("a/blobs/blobs/").ends_with('/'));
}

#[test]
fn proxy_route_methods() {
    let r = ProxyRoute::new(String::from("host.io"));
    assert!(!r.can_route());
    let get = r.with_method(2, String::from("resolve"));
    assert_eq!(get.method, Some(HttpMethod::Get));
    assert_eq!(get.operation.as_deref(), Some("resolve"));
    assert_eq!(get.ns, "host.io");
    assert!(get.can_route());
    assert!(get.is_servable());
    assert_eq!(r.with_method(7, String::new()).method, Some(HttpMethod::Put));
    assert_eq!(r.with_method(1, String::new()).method, Some(HttpMethod::Delete));
    let trace = r.with_method(8, String::new());
    assert_eq!(trace.method, Some(HttpMethod::Trace));
    assert!(!trace.is_servable());
    let none = r.with_method(9, String::new());
    assert_eq!(none.method, None);
    assert!(!none.can_route());
}

#[test]
fn tags_repository_of_name() {
    assert_eq!(tags_repository("library/hello/tags"), "library/hello");
    assert_eq!(tags_repository("a/tags/tags"), "a");
    assert_eq!(tags_repository("library/hello"), "library/hello");
}

#[test]
fn documented_proxy_definition_routes() {
    // `.manifests head, get` and `.blobs get` from the example configuration.
    assert_eq!(Methods::parse_methods(Resources::Manifests, "head, get"), vec![Methods::Head, Methods::Get]);
    assert_eq!(Methods::parse_methods(Resources::Blobs, "get"), vec![Methods::Get]);
}
