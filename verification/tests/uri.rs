use rusty_lsp::lsp::base::windows_path_text;
use rusty_lsp::lsp::Uri;

#[test]
fn uri_normalizes_scheme_and_percent_hex() {
    assert_eq!(Uri::new("FILE:///a%2fb").as_str(), "file:///a%2Fb");
    // Path case is preserved.
    assert_eq!(Uri::new("file:///A/b").as_str(), "file:///A/b");
    // Differently-spelled equivalents compare equal after normalization.
    assert_eq!(Uri::new("File:///x%3d"), Uri::new("file:///x%3D"));
}

#[test]
fn uri_file_path_round_trip() {
    let uri = Uri::from_file_path("/home/user/hello world.rs").expect("absolute path");
    assert_eq!(uri.as_str(), "file:///home/user/hello%20world.rs");
    assert_eq!(
        uri.to_file_path().expect("file uri"),
        std::path::PathBuf::from("/home/user/hello world.rs")
    );
    assert!(Uri::from_file_path("relative/path").is_none());
    assert!(Uri::new("https://example.com/x").to_file_path().is_none());
    // A remote host is not a local file path.
    assert!(Uri::new("file://host/x").to_file_path().is_none());
    // `localhost` is accepted as local.
    assert_eq!(
        Uri::new("file://localhost/x").to_file_path(),
        Some(std::path::PathBuf::from("/x"))
    );
}

#[test]
fn uri_scheme_parses_and_validates() {
    assert_eq!(Uri::new("file:///a").scheme(), Some("file"));
    assert_eq!(Uri::new("untitled:Untitled-1").scheme(), Some("untitled"));
    assert_eq!(Uri::new("not a uri").scheme(), None);
}

#[test]
fn normalization_is_idempotent() {
    for raw in ["FILE:///a%2fb", "%é%ab", "x:%", "Ab+C.d-E:%zz%fF", "no scheme %3a"] {
        let once = Uri::new(raw);
        assert_eq!(Uri::new(once.as_str()), once);
    }
}

#[test]
fn escapes_follow_the_utf8_byte_scan() {
    // A `%` covers the next two bytes; "é" is two bytes, so the `%a` after
    // it is scanned as an escape of its own.
    assert_eq!(Uri::new("x:%é%ab").as_str(), "x:%é%AB");
    // A `%` followed by an ASCII byte covers that byte and the next.
    assert_eq!(Uri::new("x:%a%b").as_str(), "x:%A%b");
}

#[test]
fn non_ascii_paths_are_percent_encoded_and_decoded() {
    let uri = Uri::from_file_path("/tmp/é x").expect("absolute");
    assert_eq!(uri.as_str(), "file:///tmp/%C3%A9%20x");
    assert_eq!(uri.file_path_string().as_deref(), Some("/tmp/é x"));
    assert!(Uri::new("file:///bad%zz").file_path_string().is_none());
    assert!(Uri::new("file:///trunc%4").file_path_string().is_none());
    assert!(Uri::new("file:///notutf8%FF").file_path_string().is_none());
    assert_eq!(Uri::new("file://LocalHost/y").file_path_string().as_deref(), Some("/y"));
}

#[test]
fn uri_borrows_as_str_for_map_lookups() {
    let mut map = std::collections::HashMap::new();
    map.insert(Uri::new("file:///a"), 1);
    assert_eq!(map.get("file:///a"), Some(&1));
}

#[test]
fn uri_compares_with_strings_by_its_normal_form() {
    let uri = Uri::new("FILE:///a%3a");
    assert!(uri == "file:///a%3A");
    assert!(PartialEq::<str>::eq(&uri, "file:///a%3A"));
    assert!(PartialEq::<Uri>::eq("file:///a%3A", &uri));
    assert!(uri == String::from("file:///a%3A"));
    assert!("file:///a%3A" == uri);
    assert!(uri != "FILE:///a%3a");
    let as_ref: &str = uri.as_ref();
    assert_eq!(as_ref, "file:///a%3A");
    assert_eq!(uri.len(), "file:///a%3A".len());
}

#[test]
fn file_uris_follow_the_platform_rules_given() {
    let unix = Uri::file_uri_for("/a b/x", true, false).expect("absolute");
    assert_eq!(unix.as_str(), "file:///a%20b/x");
    let windows = Uri::file_uri_for("C:\\a b\\x", true, true).expect("absolute");
    assert_eq!(windows.as_str(), "file:///C:/a%20b/x");
    assert!(Uri::file_uri_for("a/b", false, false).is_none());
    assert!(Uri::file_uri_for("a\\b", false, true).is_none());
    assert_eq!(windows_path_text("/C:/a/b"), "C:\\a\\b");
    assert_eq!(windows_path_text("/x/y"), "\\x\\y");
    assert_eq!(windows_path_text("/1:/a"), "\\1:\\a");
}

#[test]
fn relative_paths_make_no_file_uri() {
    assert!(Uri::from_file_path("").is_none());
    assert!(Uri::from_file_path("a/b").is_none());
}

#[test]
fn unix_paths_round_trip_through_file_uris() {
    let path = "/tmp/a b/é%.rs";
    let uri = Uri::from_file_path(path).expect("absolute");
    assert_eq!(uri.as_str(), "file:///tmp/a%20b/%C3%A9%25.rs");
    assert_eq!(Uri::new(uri.as_str()), uri);
    assert_eq!(uri.to_file_path(), Some(std::path::PathBuf::from(path)));
}

#[test]
fn file_paths_follow_the_platform_rules_given() {
    let uri = Uri::new("file:///C:/a%20b/x");
    assert_eq!(uri.file_path_for(false), Some(std::path::PathBuf::from("/C:/a b/x")));
    assert_eq!(uri.file_path_for(true), Some(std::path::PathBuf::from("C:\\a b\\x")));
    assert_eq!(Uri::new("https://h/x").file_path_for(false), None);
    let path = "/tmp/round trip/é.rs";
    let uri = Uri::file_uri_for(path, true, false).expect("absolute");
    assert_eq!(Uri::new(uri.as_str()), uri);
    assert_eq!(uri.file_path_for(false), Some(std::path::PathBuf::from(path)));
}
