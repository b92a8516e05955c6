use expresso::parser::HttpRequest;
use expresso::response::{response_for, FsEvent};
use expresso::router::{plan_request, route, Action};

fn req(s: &str) -> Vec<u8> {
    s.as_bytes().to_vec()
}

fn routed(s: &str) -> Action {
    let r = HttpRequest::parse(&req(s)).unwrap();
    route(&r)
}

#[test]
fn echo_returns_remainder_verbatim() {
    let a = routed("GET /echo/hello-world HTTP/1.1\r\n\r\n");
    match &a {
        Action::Echo { content } => assert_eq!(content, &b"hello-world".to_vec()),
        _ => panic!("expected an echo"),
    }
    let resp = response_for(a, FsEvent::Pure);
    assert_eq!(resp.status, b"200 OK".to_vec());
    assert_eq!(resp.content_type, b"text/plain".to_vec());
    assert_eq!(resp.body, b"hello-world".to_vec());
}

#[test]
fn user_agent_is_reflected() {
    let a = routed("GET /user-agent HTTP/1.1\r\nUser-Agent: test-agent/1.0\r\n\r\n");
    let resp = response_for(a, FsEvent::Pure);
    assert_eq!(resp.status, b"200 OK".to_vec());
    assert_eq!(resp.body, b"test-agent/1.0".to_vec());
}

#[test]
fn missing_user_agent_is_unknown() {
    let a = routed("GET /user-agent HTTP/1.1\r\n\r\n");
    let resp = response_for(a, FsEvent::Pure);
    assert_eq!(resp.body, b"Unknown".to_vec());
}

#[test]
fn unsupported_method_is_405_for_any_path() {
    for path in ["/", "/files/x", "/echo/abc", "/anything"] {
        let a = routed(&format!("PATCH {} HTTP/1.1\r\n\r\n", path));
        let resp = response_for(a, FsEvent::Pure);
        assert_eq!(resp.status, b"405 Method Not Allowed".to_vec());
        assert_eq!(resp.body, b"Method not allowed".to_vec());
    }
}

#[test]
fn root_and_index_serve_index_asset() {
    for path in ["/", "/index.html"] {
        let a = routed(&format!("GET {} HTTP/1.1\r\n\r\n", path));
        match a {
            Action::ServeAsset { name, content_type } => {
                assert_eq!(name, b"index.html".to_vec());
                assert_eq!(content_type, b"text/html".to_vec());
            },
            _ => panic!("expected an asset"),
        }
    }
}

#[test]
fn static_assets_have_matching_content_types() {
    let cases = [
        ("/styles.css", "styles.css", "text/css"),
        ("/app.js", "app.js", "application/javascript"),
        ("/manual.html", "manual.html", "text/html"),
    ];
    for (path, asset, ct) in cases {
        let a = routed(&format!("GET {} HTTP/1.1\r\n\r\n", path));
        match a {
            Action::ServeAsset { name, content_type } => {
                assert_eq!(name, asset.as_bytes().to_vec());
                assert_eq!(content_type, ct.as_bytes().to_vec());
            },
            _ => panic!("expected an asset"),
        }
    }
}

#[test]
fn files_root_lists_directory() {
    for path in ["/files", "/files/"] {
        let a = routed(&format!("GET {} HTTP/1.1\r\n\r\n", path));
        assert!(matches!(a, Action::ListDir));
    }
}

#[test]
fn unknown_get_path_is_404() {
    let a = routed("GET /nothing-here HTTP/1.1\r\n\r\n");
    let resp = response_for(a, FsEvent::Pure);
    assert_eq!(resp.status, b"404 Not Found".to_vec());
    assert_eq!(resp.body, b"Not Found".to_vec());
}

#[test]
fn post_outside_known_prefixes_is_404() {
    let a = routed("POST /echo/x HTTP/1.1\r\n\r\n");
    let resp = response_for(a, FsEvent::Pure);
    assert_eq!(resp.status, b"404 Not Found".to_vec());
}

#[test]
fn delete_outside_files_is_404() {
    let a = routed("DELETE /mkdir/x HTTP/1.1\r\n\r\n");
    let resp = response_for(a, FsEvent::Pure);
    assert_eq!(resp.status, b"404 Not Found".to_vec());
}

#[test]
fn mkdir_routes_to_make_dir() {
    let a = routed("POST /mkdir/new-dir HTTP/1.1\r\n\r\n");
    match &a {
        Action::MakeDir { name } => assert_eq!(name, &b"new-dir".to_vec()),
        _ => panic!("expected a mkdir"),
    }
    let created = response_for(a, FsEvent::MkdirOk);
    assert_eq!(created.status, b"201 Created".to_vec());
    assert_eq!(created.body, b"Directory created".to_vec());
    let failed = response_for(routed("POST /mkdir/new-dir HTTP/1.1\r\n\r\n"), FsEvent::MkdirFailed);
    assert_eq!(failed.status, b"500 Internal Server Error".to_vec());
    assert_eq!(failed.body, b"Failed to create directory".to_vec());
}

// a tiny in-memory stand-in for the base directory, used to play the
// filesystem's part in the round-trip scenarios
fn perform(a: &Action, store: &mut std::collections::HashMap<Vec<u8>, Vec<u8>>) -> FsEvent {
    match a {
        Action::ReadFile { name } => match store.get(name) {
            Some(data) => FsEvent::FileData { data: data.clone() },
            None => FsEvent::FileMissing,
        },
        Action::WriteFile { name, contents } => {
            store.insert(name.clone(), contents.clone());
            FsEvent::WriteOk
        },
        Action::DeleteEntry { name } => {
            if store.remove(name).is_some() {
                FsEvent::DeletedFile
            } else {
                FsEvent::DeleteMissing
            }
        },
        _ => FsEvent::Pure,
    }
}

#[test]
fn post_then_get_round_trips_the_body() {
    let mut store = std::collections::HashMap::new();
    let post = routed("POST /files/foo.txt HTTP/1.1\r\nContent-Length: 4\r\n\r\nB()\n");
    let ev = perform(&post, &mut store);
    let resp = response_for(post, ev);
    assert_eq!(resp.status, b"201 Created".to_vec());
    assert_eq!(resp.body, b"File created".to_vec());

    let get = routed("GET /files/foo.txt HTTP/1.1\r\n\r\n");
    let ev = perform(&get, &mut store);
    let resp = response_for(get, ev);
    assert_eq!(resp.status, b"200 OK".to_vec());
    assert_eq!(resp.content_type, b"application/octet-stream".to_vec());
    assert_eq!(resp.body, b"B()\n".to_vec());
}

#[test]
fn delete_then_get_is_404() {
    let mut store = std::collections::HashMap::new();
    store.insert(b"foo.txt".to_vec(), b"data".to_vec());

    let del = routed("DELETE /files/foo.txt HTTP/1.1\r\n\r\n");
    let ev = perform(&del, &mut store);
    let resp = response_for(del, ev);
    assert_eq!(resp.status, b"200 OK".to_vec());
    assert_eq!(resp.body, b"File deleted".to_vec());

    let get = routed("GET /files/foo.txt HTTP/1.1\r\n\r\n");
    let ev = perform(&get, &mut store);
    let resp = response_for(get, ev);
    assert_eq!(resp.status, b"404 Not Found".to_vec());
    assert_eq!(resp.body, b"File not found".to_vec());
}

#[test]
fn concurrent_posts_plan_independently() {
    // the decision core is pure: two connections' plans share nothing
    let pa = plan_request(&req("POST /files/a HTTP/1.1\r\nContent-Length: 2\r\n\r\naa")).unwrap();
    let pb = plan_request(&req("POST /files/b HTTP/1.1\r\nContent-Length: 2\r\n\r\nbb")).unwrap();
    match (&pa.1, &pb.1) {
        (
            Action::WriteFile { name: na, contents: ca },
            Action::WriteFile { name: nb, contents: cb },
        ) => {
            assert_eq!(na, &b"a".to_vec());
            assert_eq!(ca, &b"aa".to_vec());
            assert_eq!(nb, &b"b".to_vec());
            assert_eq!(cb, &b"bb".to_vec());
        },
        _ => panic!("expected two writes"),
    }
    let ra = response_for(pa.1, FsEvent::WriteOk);
    let rb = response_for(pb.1, FsEvent::WriteOk);
    assert_eq!(ra.status, b"201 Created".to_vec());
    assert_eq!(rb.status, b"201 Created".to_vec());
}

#[test]
fn parse_failure_plans_no_response() {
    let e = plan_request(&req("oops\r\n\r\n")).unwrap_err();
    assert_eq!(e, expresso::parser::ParseError::MalformedRequest);
}
