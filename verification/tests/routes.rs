use sd_api_server::response::ErrorKind;
use sd_api_server::routes::{
    boundary, endpoint, files_route, plan_generation, plan_upload, route_get, route_normal_get,
    Endpoint, FilesRoute, Plan,
};

#[test]
fn paths_lead_to_their_endpoints() {
    assert_eq!(endpoint("/echo").unwrap(), Endpoint::Echo);
    assert_eq!(endpoint("/v1/images/generations").unwrap(), Endpoint::Generations);
    assert_eq!(endpoint("/v1/images/edits").unwrap(), Endpoint::Edits);
    assert_eq!(endpoint("/v1/images/variations").unwrap(), Endpoint::Variations);
    assert_eq!(endpoint("/v1/files").unwrap(), Endpoint::Files);
    assert_eq!(endpoint("/v1/files/file_1/content").unwrap(), Endpoint::Files);
}

#[test]
fn unknown_paths_are_not_found() {
    let e = endpoint("/v1/chat/completions").unwrap_err();
    assert_eq!(e.kind, ErrorKind::NotFound);
    assert_eq!(e.message, "/v1/chat/completions");
    assert_eq!(e.status(), 404);
    assert_eq!(
        e.text(),
        "404 The requested service endpoint is not found: /v1/chat/completions"
    );
    let e = endpoint("/v2/files").unwrap_err();
    assert_eq!(e.message, "/v2");
    let e = endpoint("/").unwrap_err();
    assert_eq!(e.message, "/");
    let e = endpoint("/v1/filesystem").unwrap_err();
    assert_eq!(e.message, "/v1/filesystem");
}

#[test]
fn boundary_is_what_follows_the_marker() {
    assert_eq!(boundary("multipart/form-data; boundary=abc"), Some("abc".to_string()));
    assert_eq!(
        boundary("multipart/form-data; boundary=----x; charset=utf-8"),
        Some("----x; charset=utf-8".to_string())
    );
    assert_eq!(boundary("multipart/form-data; boundary="), Some(String::new()));
    assert_eq!(boundary("multipart/form-data"), None);
    assert_eq!(boundary(""), None);
}

#[test]
fn generation_plans() {
    assert!(matches!(plan_generation("OPTIONS", None), Plan::Preflight));
    assert!(matches!(
        plan_generation("OPTIONS", Some("multipart/form-data; boundary=b")),
        Plan::Preflight
    ));
    match plan_generation("POST", Some("multipart/form-data; boundary=b")) {
        Plan::Multipart { boundary } => assert_eq!(boundary, "b"),
        other => panic!("{:?}", other),
    }
    assert!(matches!(plan_generation("POST", Some("application/json")), Plan::Json));
    assert!(matches!(plan_generation("POST", None), Plan::Json));
    match plan_generation("GET", Some("application/json")) {
        Plan::Reject(e) => {
            assert_eq!(e.kind, ErrorKind::InternalServerError);
            assert_eq!(e.message, "Invalid HTTP Method.");
            assert_eq!(e.status(), 500);
        }
        other => panic!("{:?}", other),
    }
    match plan_generation("POST", Some("multipart/form-data")) {
        Plan::Reject(e) => assert_eq!(e.kind, ErrorKind::BadRequest),
        other => panic!("{:?}", other),
    }
}

#[test]
fn edit_and_variation_plans() {
    assert!(matches!(plan_upload("OPTIONS", None), Plan::Preflight));
    match plan_upload("POST", Some("multipart/form-data; boundary=b")) {
        Plan::Multipart { boundary } => assert_eq!(boundary, "b"),
        other => panic!("{:?}", other),
    }
    match plan_upload("GET", Some("multipart/form-data; boundary=b")) {
        Plan::Reject(e) => {
            assert_eq!(e.kind, ErrorKind::MethodNotAllowed);
            assert_eq!(e.message, "GET");
            assert_eq!(e.status(), 405);
            assert_eq!(e.text(), "405 Method Not Allowed: GET");
        }
        other => panic!("{:?}", other),
    }
    match plan_upload("POST", None) {
        Plan::Reject(e) => {
            assert_eq!(e.kind, ErrorKind::BadRequest);
            assert_eq!(e.status(), 400);
        }
        other => panic!("{:?}", other),
    }
}

#[test]
fn files_routes_by_method_and_path() {
    assert!(matches!(files_route("POST", "/v1/files"), FilesRoute::Upload));
    assert!(matches!(files_route("GET", "/v1/files"), FilesRoute::List));
    assert!(matches!(files_route("GET", "/v1/files/"), FilesRoute::List));
    assert!(matches!(files_route("OPTIONS", "/v1/files"), FilesRoute::Preflight));
    match files_route("GET", "/v1/files/file_1") {
        FilesRoute::Metadata { id } => assert_eq!(id, "file_1"),
        other => panic!("{:?}", other),
    }
    match files_route("GET", "/v1/files/file_1/content") {
        FilesRoute::Content { id } => assert_eq!(id, "file_1"),
        other => panic!("{:?}", other),
    }
    match files_route("GET", "/v1/files/download/file_1") {
        FilesRoute::Download { id } => assert_eq!(id, "file_1"),
        other => panic!("{:?}", other),
    }
    match files_route("GET", "/V1/Files/File_AB/") {
        FilesRoute::Metadata { id } => assert_eq!(id, "file_ab"),
        other => panic!("{:?}", other),
    }
    match files_route("DELETE", "/v1/files/file_1") {
        FilesRoute::Delete { id } => assert_eq!(id, "file_1"),
        other => panic!("{:?}", other),
    }
}

#[test]
fn files_routes_that_are_refused() {
    for path in [
        "/v1/files/abc",
        "/v1/files/abc/content",
        "/v1/files/download",
        "/v1/files/download/content",
        "/v1/files/file_1/content/more",
        "/v1/files/file_1/other",
        "/v1/other",
    ] {
        match files_route("GET", path) {
            FilesRoute::Reject(e) => {
                assert_eq!(e.kind, ErrorKind::InternalServerError);
                assert_eq!(e.message, format!("unsupported uri path: {}", path));
            }
            other => panic!("{} gave {:?}", path, other),
        }
    }
    for method in ["PUT", "PATCH", "HEAD", "get", ""] {
        match files_route(method, "/v1/files/File_1/") {
            FilesRoute::Reject(e) => {
                assert_eq!(e.kind, ErrorKind::InternalServerError);
                assert_eq!(e.message, "unsupported uri path: /v1/files/File_1/");
            }
            other => panic!("{:?}", other),
        }
    }
}

#[test]
fn routes_on_a_normal_path() {
    assert!(matches!(route_normal_get("/v1/files"), FilesRoute::List));
    match route_normal_get("/v1/files/file_1") {
        FilesRoute::Metadata { id } => assert_eq!(id, "file_1"),
        other => panic!("{:?}", other),
    }
    match route_normal_get("/v1/files/abc") {
        FilesRoute::Reject(e) => assert_eq!(e.message, "unsupported uri path: /v1/files/abc"),
        other => panic!("{:?}", other),
    }
    match route_normal_get("/v1/files/") {
        FilesRoute::Reject(e) => assert_eq!(e.message, "unsupported uri path: /v1/files/"),
        other => panic!("{:?}", other),
    }
    match route_normal_get("/V1/files") {
        FilesRoute::Reject(e) => assert_eq!(e.message, "unsupported uri path: /V1/files"),
        other => panic!("{:?}", other),
    }
    match route_get("/V1/FILES/download/FILE_1//") {
        FilesRoute::Download { id } => assert_eq!(id, "file_1"),
        other => panic!("{:?}", other),
    }
}
