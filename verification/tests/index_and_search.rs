use midna::aur::Aur;
use midna::errors::AurError;

#[test]
fn update_success_keeps_body_verbatim() {
    let aur = Aur::new();
    let r = aur.update_package_list(200, String::from("pkgA\npkgB\n"));
    match r {
        Ok(contents) => assert_eq!(contents, "pkgA\npkgB\n"),
        Err(_) => panic!("status 200 must succeed"),
    }
}

#[test]
fn update_success_any_2xx() {
    let aur = Aur::new();
    assert!(aur.update_package_list(204, String::new()).is_ok());
    assert!(aur.update_package_list(299, String::from("x")).is_ok());
}

#[test]
fn update_failure_statuses() {
    let aur = Aur::new();
    match aur.update_package_list(404, String::from("x")) {
        Err(AurError::NetworkError { detail }) => assert_eq!(detail, "unexpected status 404"),
        _ => panic!("status 404 must be a network error"),
    }
    match aur.update_package_list(199, String::new()) {
        Err(AurError::NetworkError { detail }) => assert_eq!(detail, "unexpected status 199"),
        _ => panic!("status 199 must be a network error"),
    }
    match aur.update_package_list(301, String::new()) {
        Err(AurError::NetworkError { detail }) => assert_eq!(detail, "unexpected status 301"),
        _ => panic!("status 301 must be a network error"),
    }
}

#[test]
fn local_index_exact_line_match() {
    let aur = Aur::new();
    let index = "pkgA\npkgB\n";
    assert!(aur.find_in_local_index(index, "pkgA"));
    assert!(aur.find_in_local_index(index, "pkgB"));
    assert!(!aur.find_in_local_index(index, "pkg"));
    assert!(!aur.find_in_local_index(index, "pkgB\n"));
    assert!(!aur.find_in_local_index(index, "pkgA\npkgB"));
    // The trailing newline ends the last line; it does not open an empty one.
    assert!(!aur.find_in_local_index(index, ""));
    // Without a trailing newline the last line still counts.
    assert!(aur.find_in_local_index("a\nb", "b"));
    // A doubled newline holds a genuinely empty line.
    assert!(aur.find_in_local_index("a\n\nb", ""));
    assert!(!aur.find_in_local_index("", "a"));
}

#[test]
fn search_url_appends_encoded_query() {
    let aur = Aur::new();
    assert_eq!(
        aur.search_url("foo"),
        "https://aur.archlinux.org/rpc/?v=5&type=search&arg=foo"
    );
    assert_eq!(
        aur.search_url("foo bar"),
        "https://aur.archlinux.org/rpc/?v=5&type=search&arg=foo%20bar"
    );
    assert_eq!(
        aur.search_url("c++&x=1"),
        "https://aur.archlinux.org/rpc/?v=5&type=search&arg=c%2B%2B%26x%3D1"
    );
    assert_eq!(
        aur.search_url("A-z.0_~"),
        "https://aur.archlinux.org/rpc/?v=5&type=search&arg=A-z.0_~"
    );
    // UTF-8 bytes of each non-ASCII character are escaped one by one.
    assert_eq!(
        aur.search_url("é"),
        "https://aur.archlinux.org/rpc/?v=5&type=search&arg=%C3%A9"
    );
    assert_eq!(
        aur.search_url("\u{20AC}"),
        "https://aur.archlinux.org/rpc/?v=5&type=search&arg=%E2%82%AC"
    );
    assert_eq!(
        aur.search_url("\u{1F600}"),
        "https://aur.archlinux.org/rpc/?v=5&type=search&arg=%F0%9F%98%80"
    );
}

#[test]
fn search_empty_results_is_ok_and_empty() {
    let aur = Aur::new();
    let r = aur.search_package("{\"results\":[]}");
    match r {
        Ok(sr) => assert_eq!(sr.entries.len(), 0),
        Err(_) => panic!("an empty results list is not an error"),
    }
}

#[test]
fn search_one_entry_projects_fields() {
    let aur = Aur::new();
    let body = "{\"results\":[{\"Name\":\"foo\",\"Version\":\"1.0-1\",\"Description\":\"desc\"}]}";
    let sr = aur.search_package(body).expect("well-formed body must parse");
    assert_eq!(sr.entries.len(), 1);
    assert_eq!(sr.entries[0].name, "foo");
    assert_eq!(sr.entries[0].version, "1.0-1");
    assert_eq!(sr.entries[0].description.as_deref(), Some("desc"));
    let line = sr.entries[0].render();
    assert_eq!(line, "aur/foo 1.0-1\n    desc");
    assert!(line.contains("aur/foo"));
    assert!(line.contains("1.0-1"));
    assert!(line.contains("desc"));
}

#[test]
fn search_entry_without_description() {
    let aur = Aur::new();
    let body = "{\"results\":[{\"Name\":\"bar\",\"Version\":\"2.3\"}]}";
    let sr = aur.search_package(body).expect("description is optional");
    assert_eq!(sr.entries.len(), 1);
    assert!(sr.entries[0].description.is_none());
    assert_eq!(sr.entries[0].render(), "aur/bar 2.3");
}

#[test]
fn search_non_string_description_is_absent() {
    let aur = Aur::new();
    let body = "{\"results\":[{\"Name\":\"baz\",\"Version\":\"3\",\"Description\":7}]}";
    let sr = aur.search_package(body).expect("a non-string description is simply absent");
    assert_eq!(sr.entries.len(), 1);
    assert!(sr.entries[0].description.is_none());
}

#[test]
fn search_keeps_server_order() {
    let aur = Aur::new();
    let body = "{\"results\":[{\"Name\":\"a\",\"Version\":\"1\"},{\"Name\":\"b\",\"Version\":\"2\"}]}";
    let sr = aur.search_package(body).expect("two entries must parse");
    assert_eq!(sr.entries.len(), 2);
    assert_eq!(sr.entries[0].name, "a");
    assert_eq!(sr.entries[1].name, "b");
}

#[test]
fn search_invalid_json_is_parse_error() {
    let aur = Aur::new();
    let r = aur.search_package("not json at all {");
    assert!(matches!(r, Err(AurError::ParseError { .. })));
}

#[test]
fn search_missing_results_is_parse_error() {
    let aur = Aur::new();
    assert!(matches!(aur.search_package("{}"), Err(AurError::ParseError { .. })));
    assert!(matches!(
        aur.search_package("{\"results\":42}"),
        Err(AurError::ParseError { .. })
    ));
}

#[test]
fn search_entry_missing_fields_is_parse_error() {
    let aur = Aur::new();
    assert!(matches!(
        aur.search_package("{\"results\":[{\"Version\":\"1\"}]}"),
        Err(AurError::ParseError { .. })
    ));
    assert!(matches!(
        aur.search_package("{\"results\":[{\"Name\":\"foo\"}]}"),
        Err(AurError::ParseError { .. })
    ));
    assert!(matches!(
        aur.search_package("{\"results\":[{\"Name\":7,\"Version\":\"1\"}]}"),
        Err(AurError::ParseError { .. })
    ));
}
