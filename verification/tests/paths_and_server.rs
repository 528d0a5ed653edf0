use webserver::path::{bytes_equal, copy_bytes, FsPath};
use webserver::server::{Server, ServerContext, SocketAddress};

fn path(parts: &[&str]) -> FsPath {
    FsPath::new(parts.iter().map(|p| p.as_bytes().to_vec()).collect())
}

fn parts(p: &FsPath) -> Vec<String> {
    p.components.iter().map(|c| String::from_utf8(c.clone()).unwrap()).collect()
}

#[test]
fn starts_with_compares_components() {
    let site = path(&["/", "srv", "www"]);
    assert!(path(&["/", "srv", "www"]).starts_with(&site));
    assert!(path(&["/", "srv", "www", "a"]).starts_with(&site));
    assert!(!path(&["/", "srv", "www2"]).starts_with(&site));
    assert!(!path(&["/", "srv"]).starts_with(&site));
    assert!(path(&["a"]).starts_with(&path(&[])));
}

#[test]
fn joined_below_skips_leading_roots() {
    let site = path(&["/", "srv"]);
    assert_eq!(parts(&site.joined_below(&path(&["/", "a", "b"]))), vec!["/", "srv", "a", "b"]);
    assert_eq!(parts(&site.joined_below(&path(&["..", "x"]))), vec!["/", "srv", "..", "x"]);
    assert_eq!(parts(&site.joined_below(&path(&["/"]))), vec!["/", "srv"]);
}

#[test]
fn pushed_and_duplicate() {
    let p = path(&["a"]);
    assert_eq!(parts(&p.pushed(b"index.html")), vec!["a", "index.html"]);
    assert_eq!(parts(&p.duplicate()), vec!["a"]);
}

#[test]
fn byte_helpers() {
    assert!(bytes_equal(b"abc", b"abc"));
    assert!(!bytes_equal(b"abc", b"abd"));
    assert!(!bytes_equal(b"ab", b"abc"));
    assert_eq!(copy_bytes(b"xyz"), b"xyz".to_vec());
}

fn addr() -> SocketAddress {
    SocketAddress::V4 { octets: [127, 0, 0, 1], port: 42080 }
}

#[test]
fn server_with_custom_context() {
    let s = Server::new_with_custom("webserver/0.1.0".to_string(), addr(), path(&["www"]), path(&["www", "404.html"]), 7u32);
    let c = s.context();
    assert_eq!(c.name, "webserver/0.1.0");
    assert!(matches!(c.addr, SocketAddress::V4 { octets: [127, 0, 0, 1], port: 42080 }));
    assert_eq!(parts(&c.site), vec!["www"]);
    assert_eq!(parts(&c.not_found_file), vec!["www", "404.html"]);
    assert_eq!(c.custom, 7);
}

#[test]
fn server_with_default_custom_context() {
    let s: Server<u32> = Server::new_with_default_custom("n".to_string(), addr(), path(&["www"]), path(&["nf"]));
    let c = s.into_context();
    assert_eq!(c.custom, 0);
    assert_eq!(c.name, "n");
}

#[test]
fn server_with_loaded_context() {
    let loaded = ServerContext { name: String::new(), addr: addr(), site: path(&["s"]), not_found_file: path(&["nf"]), custom: () };
    let s = Server::with_loaded_context("webserver/1".to_string(), loaded);
    assert_eq!(s.context().name, "webserver/1");
    assert_eq!(parts(&s.context().site), vec!["s"]);
}
