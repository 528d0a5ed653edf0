use webserver::path::FsPath;
use webserver::state::{AuthMode, Context};
use webserver::www::{
    is_header_value_text, mime_type, Lookup, LookupEvent, MimeType, INTERNAL_ERROR_BODY,
    INTERNAL_SERVER_ERROR_STATUS, NOT_FOUND_STATUS, OK_STATUS,
};

fn path(parts: &[&str]) -> FsPath {
    FsPath::new(parts.iter().map(|p| p.as_bytes().to_vec()).collect())
}

fn parts(p: &FsPath) -> Vec<String> {
    p.components.iter().map(|c| String::from_utf8(c.clone()).unwrap()).collect()
}

fn context() -> Context {
    Context {
        name: "webserver",
        version: "0.1.0",
        site: path(&["/", "srv", "www"]),
        not_found_file: path(&[".", "www", "not_found.html"]),
        auth: AuthMode::none(),
    }
}

fn mime(parts: &[&str]) -> &'static str {
    mime_type(&path(parts)).as_str()
}

#[test]
fn mime_types_by_extension() {
    assert_eq!(mime(&["/", "a", "index.html"]), "text/html");
    assert_eq!(mime(&["main.js"]), "text/javascript");
    assert_eq!(mime(&["style.min.css"]), "text/css");
    assert_eq!(mime(&["image.png"]), "text/plain");
    assert_eq!(mime(&["README"]), "text/plain");
    assert_eq!(mime(&[".html"]), "text/plain");
    assert_eq!(mime(&["a.HTML"]), "text/plain");
    assert_eq!(mime(&["a", ".."]), "text/plain");
    assert_eq!(mime(&["/"]), "text/plain");
    assert_eq!(mime(&[]), "text/plain");
    assert_eq!(mime(&["archive.tar.html"]), "text/html");
    assert_eq!(mime(&["dot."]), "text/plain");
    assert!(matches!(mime_type(&path(&["x.css"])), MimeType::Css));
}

#[test]
fn request_joined_below_site() {
    let c = context();
    match c.begin_lookup(&path(&["/", "docs", "a.html"])) {
        Lookup::Canonicalize { path } => assert_eq!(parts(&path), vec!["/", "srv", "www", "docs", "a.html"]),
        _ => panic!("expected Canonicalize"),
    }
    match c.begin_lookup(&path(&[])) {
        Lookup::Canonicalize { path } => assert_eq!(parts(&path), vec!["/", "srv", "www"]),
        _ => panic!("expected Canonicalize"),
    }
}

#[test]
fn plain_file_is_served() {
    let c = context();
    let a = c.begin_lookup(&path(&["a.css"]));
    let a = c.advance_lookup(a, LookupEvent::Canonical(path(&["/", "srv", "www", "a.css"])));
    assert!(matches!(a, Lookup::CheckDirectory { .. }));
    let a = c.advance_lookup(a, LookupEvent::Answer(false));
    assert!(matches!(a, Lookup::OpenFile { status: 200, ref path } if parts(path) == vec!["/", "srv", "www", "a.css"]));
    let a = c.advance_lookup(a, LookupEvent::Succeeded);
    assert!(matches!(a, Lookup::ReadLength { status: 200, .. }));
    let a = c.advance_lookup(a, LookupEvent::Length(42));
    match a {
        Lookup::SendFile { status, headers } => {
            assert_eq!(status, OK_STATUS);
            assert_eq!(headers.content_type.as_str(), "text/css");
            assert_eq!(headers.content_length, 42);
            assert_eq!(headers.server, "webserver/0.1.0");
        },
        _ => panic!("expected SendFile"),
    }
}

#[test]
fn directory_serves_index() {
    let c = context();
    let a = c.begin_lookup(&path(&["docs"]));
    let a = c.advance_lookup(a, LookupEvent::Canonical(path(&["/", "srv", "www", "docs"])));
    let a = c.advance_lookup(a, LookupEvent::Answer(true));
    assert!(matches!(a, Lookup::CheckIndex { ref path } if parts(path) == vec!["/", "srv", "www", "docs", "index.html"]));
    let a = c.advance_lookup(a, LookupEvent::Answer(true));
    assert!(matches!(a, Lookup::OpenFile { status: 200, ref path } if parts(path) == vec!["/", "srv", "www", "docs", "index.html"]));
}

#[test]
fn directory_without_index_is_not_found() {
    let c = context();
    let a = c.begin_lookup(&path(&["docs"]));
    let a = c.advance_lookup(a, LookupEvent::Canonical(path(&["/", "srv", "www", "docs"])));
    let a = c.advance_lookup(a, LookupEvent::Answer(true));
    let a = c.advance_lookup(a, LookupEvent::Answer(false));
    assert!(matches!(a, Lookup::OpenFile { status: 404, ref path } if parts(path) == vec![".", "www", "not_found.html"]));
}

#[test]
fn escaping_the_site_is_not_found() {
    let c = context();
    let a = c.begin_lookup(&path(&["..", "..", "etc", "passwd"]));
    let a = c.advance_lookup(a, LookupEvent::Canonical(path(&["/", "etc", "passwd"])));
    assert!(matches!(a, Lookup::OpenFile { status: 404, ref path } if parts(path) == vec![".", "www", "not_found.html"]));
    // A sibling directory whose name merely starts like the site's is outside too.
    let a = c.begin_lookup(&path(&["x"]));
    let a = c.advance_lookup(a, LookupEvent::Canonical(path(&["/", "srv", "www2", "x"])));
    assert!(matches!(a, Lookup::OpenFile { status: 404, .. }));
}

#[test]
fn missing_file_is_not_found() {
    let c = context();
    let a = c.begin_lookup(&path(&["nope.html"]));
    let a = c.advance_lookup(a, LookupEvent::Failed);
    assert!(matches!(a, Lookup::OpenFile { status: NOT_FOUND_STATUS, ref path } if parts(path) == vec![".", "www", "not_found.html"]));
    let a = c.advance_lookup(a, LookupEvent::Succeeded);
    let a = c.advance_lookup(a, LookupEvent::Length(7));
    match a {
        Lookup::SendFile { status, headers } => {
            assert_eq!(status, 404);
            assert_eq!(headers.content_type.as_str(), "text/html");
            assert_eq!(headers.content_length, 7);
        },
        _ => panic!("expected SendFile"),
    }
}

#[test]
fn unreadable_file_is_internal_server_error() {
    let c = context();
    let a = c.begin_lookup(&path(&["a"]));
    let a = c.advance_lookup(a, LookupEvent::Canonical(path(&["/", "srv", "www", "a"])));
    let a = c.advance_lookup(a, LookupEvent::Answer(false));
    let a = c.advance_lookup(a, LookupEvent::Failed);
    assert!(matches!(a, Lookup::SendError { status: 500 }));
    let a = c.advance_lookup(a, LookupEvent::Succeeded);
    assert!(matches!(a, Lookup::SendError { status: 500 }));
    assert_eq!(INTERNAL_ERROR_BODY, "Internal server error");
    assert_eq!(INTERNAL_SERVER_ERROR_STATUS, 500);

    // The not-found page that cannot be opened is an internal error too.
    let a = c.begin_lookup(&path(&["gone"]));
    let a = c.advance_lookup(a, LookupEvent::Failed);
    let a = c.advance_lookup(a, LookupEvent::Failed);
    assert!(matches!(a, Lookup::SendError { status: 500 }));

    let a = c.begin_lookup(&path(&["a"]));
    let a = c.advance_lookup(a, LookupEvent::Canonical(path(&["/", "srv", "www", "a"])));
    let a = c.advance_lookup(a, LookupEvent::Answer(false));
    let a = c.advance_lookup(a, LookupEvent::Succeeded);
    let a = c.advance_lookup(a, LookupEvent::Failed);
    assert!(matches!(a, Lookup::SendError { status: 500 }));
}

#[test]
fn status_constants() {
    assert_eq!(OK_STATUS, 200);
    assert_eq!(NOT_FOUND_STATUS, 404);
}

#[test]
fn server_header_validity() {
    let mut c = context();
    assert!(c.server_header_is_valid());
    c.name = "web\nserver";
    assert!(!c.server_header_is_valid());
    c.name = "w\u{e9}bserver";
    assert!(c.server_header_is_valid());
    c.name = "web\tserver";
    assert!(c.server_header_is_valid());
    assert!(!is_header_value_text("a\x7fb"));
    assert!(is_header_value_text(""));
}
