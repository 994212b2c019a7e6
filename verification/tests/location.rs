use orm::err::ErrorKind;
use orm::update::location::{archive_path, archive_uri, parent_path, parent_uri, Uri};

#[test]
fn test_parent_uri() {
    // File at root
    let parent1 = parent_uri("http://foo/manifest.yaml").unwrap();

    assert_eq!(parent1.to_string(), "http://foo/".to_string());

    // File in sub path
    let parent2 = parent_uri("https://foo/bar/manifest.yaml").unwrap();

    assert_eq!(parent2.to_string(), "https://foo/bar".to_string());
}

#[test]
fn parent_uri_keeps_scheme_and_authority() {
    let parent = parent_uri("https://user@example.org:8443/a/b/manifest.yaml?x=1").unwrap();
    assert_eq!(parent.scheme.as_deref(), Some("https"));
    assert_eq!(parent.authority.as_deref(), Some("user@example.org:8443"));
    assert_eq!(parent.path(), "/a/b");
    assert_eq!(parent.to_string(), "https://user@example.org:8443/a/b");
}

#[test]
fn parent_uri_of_what_is_no_uri_is_an_error() {
    for url in ["", "http://", "not a uri", "http://foo/a b"] {
        let e = parent_uri(url).unwrap_err();
        assert_eq!(e.kind(), ErrorKind::InvalidManifestUrl);
        assert_eq!(e.to_string(), format!("Invalid manifest URL: {}", url));
    }
}

#[test]
fn parent_uri_needs_a_path() {
    let e = parent_uri("example.org:8080").unwrap_err();
    assert_eq!(e.kind(), ErrorKind::InvalidManifestUrl);
}

#[test]
fn parse_copies_the_parts() {
    let uri = Uri::parse("http://foo/bar/manifest.yaml?q=1").unwrap();
    assert_eq!(uri.scheme.as_deref(), Some("http"));
    assert_eq!(uri.authority.as_deref(), Some("foo"));
    assert_eq!(uri.path(), "/bar/manifest.yaml");
    assert_eq!(uri.to_string(), "http://foo/bar/manifest.yaml?q=1");
    let bare = Uri::parse("foo:80").unwrap();
    assert_eq!(bare.scheme, None);
    assert_eq!(bare.path(), "");
    assert!(Uri::parse("").is_none());
}

#[test]
fn parent_path_drops_the_last_segment() {
    assert_eq!(parent_path("/manifest.yaml"), "");
    assert_eq!(parent_path("/bar/manifest.yaml"), "/bar");
    assert_eq!(parent_path("/a/b/c/manifest.yaml"), "/a/b/c");
    assert_eq!(parent_path("/a/b/"), "/a/b");
    assert_eq!(parent_path("/"), "");
    assert_eq!(parent_path(""), "");
}

#[test]
fn parent_path_drops_empty_segments() {
    assert_eq!(parent_path("//a///b//manifest.yaml"), "/a/b");
    assert_eq!(parent_path("a/manifest.yaml"), "/a");
}

#[test]
fn archive_path_is_made_of_name_and_version() {
    assert_eq!(archive_path("/bar", "app", "1.2.3"), "/bar/app-1.2.3.tar.gz");
    assert_eq!(archive_path("", "my-app", "2.0.0-rc.1"), "/my-app-2.0.0-rc.1.tar.gz");
}

#[test]
fn archive_uri_is_beside_the_manifest() {
    let uri = archive_uri("https://foo/bar/manifest.yaml", "app", "1.2.3").unwrap();
    assert_eq!(uri.to_string(), "https://foo/bar/app-1.2.3.tar.gz");
    assert_eq!(uri.scheme.as_deref(), Some("https"));
    assert_eq!(uri.authority.as_deref(), Some("foo"));
    assert_eq!(uri.path(), "/bar/app-1.2.3.tar.gz");
}

#[test]
fn archive_uri_needs_scheme_and_authority() {
    let e = archive_uri("/bar/manifest.yaml", "app", "1.2.3").unwrap_err();
    assert_eq!(e.kind(), ErrorKind::InvalidManifestUrl);
    let e = archive_uri("nonsense uri", "app", "1.2.3").unwrap_err();
    assert_eq!(e.kind(), ErrorKind::InvalidManifestUrl);
}

#[test]
fn archive_uri_rejects_a_name_that_no_path_can_hold() {
    let e = archive_uri("https://foo/bar/manifest.yaml", "my app", "1.2.3").unwrap_err();
    assert_eq!(e.kind(), ErrorKind::InvalidManifestUrl);
    assert_eq!(e.to_string(), "Invalid manifest URL: https://foo/bar/manifest.yaml");
}

#[test]
fn parent_of_a_uri_without_path_is_none() {
    assert!(Uri::parse("foo:80").unwrap().parent().is_none());
    let parent = Uri::parse("http://foo/a/b").unwrap().parent().unwrap();
    assert_eq!(parent.to_string(), "http://foo/a");
    assert!(parent.archive("app", "1.0.0").unwrap().to_string() == "http://foo/a/app-1.0.0.tar.gz");
}

#[test]
fn archive_uri_at_the_root_appends_to_the_root_path() {
    let uri = archive_uri("http://foo/manifest.yaml", "app", "1.2.3").unwrap();
    assert_eq!(uri.to_string(), "http://foo//app-1.2.3.tar.gz");
}
