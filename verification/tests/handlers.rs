use sd_api_server::fields::ResponseFormat;
use sd_api_server::files::FileRegistry;
use sd_api_server::handlers::{
    accept_generation, begin_edit, begin_generation, begin_variation, finish_edit,
    finish_generation, finish_variation, handle_files, Begun,
};
use sd_api_server::json::{ImageObject, ImagesResponse};
use sd_api_server::request::GenerationRequest;
use sd_api_server::response::HttpResponse;

const BOUNDARY: &str = "XBOUNDARYX";
const MULTIPART: &str = "multipart/form-data; boundary=XBOUNDARYX";

fn text_part(name: &str, value: &str) -> Vec<u8> {
    format!(
        "--{}\r\nContent-Disposition: form-data; name=\"{}\"\r\n\r\n{}\r\n",
        BOUNDARY, name, value
    )
    .into_bytes()
}

fn file_part(name: &str, filename: &str, content: &[u8]) -> Vec<u8> {
    let mut out = format!(
        "--{}\r\nContent-Disposition: form-data; name=\"{}\"; filename=\"{}\"\r\nContent-Type: application/octet-stream\r\n\r\n",
        BOUNDARY, name, filename
    )
    .into_bytes();
    out.extend_from_slice(content);
    out.extend_from_slice(b"\r\n");
    out
}

fn body(parts: Vec<Vec<u8>>) -> Vec<u8> {
    let mut out = Vec::new();
    for p in parts {
        out.extend_from_slice(&p);
    }
    out.extend_from_slice(format!("--{}--\r\n", BOUNDARY).as_bytes());
    out
}

fn text(r: &HttpResponse) -> String {
    String::from_utf8(r.body.clone()).unwrap()
}

fn header(r: &HttpResponse, name: &str) -> Option<String> {
    r.headers.iter().find(|h| h.name == name).map(|h| h.value.clone())
}

fn json_request(user: Option<&str>) -> GenerationRequest {
    GenerationRequest {
        prompt: "a cat".to_string(),
        negative_prompt: None,
        model: "sd".to_string(),
        n: Some(1),
        response_format: Some(ResponseFormat::Url),
        user: user.map(|u| u.to_string()),
        cfg_scale: None,
        sample_method: None,
        steps: None,
        height: None,
        width: None,
        control_strength: None,
        control_image: None,
        seed: None,
    }
}

fn upload(registry: &mut FileRegistry, filename: &str, content: &[u8]) -> String {
    let r = handle_files(
        "POST",
        "/v1/files",
        Some(MULTIPART),
        body(vec![file_part("file", filename, content)]),
        registry,
        11,
    );
    assert_eq!(r.status, 200);
    let listed = registry.list();
    listed.last().unwrap().id.clone()
}

#[test]
fn a_json_request_without_user_gets_one_that_is_echoed() {
    match accept_generation(Ok(json_request(None))) {
        Begun::Engine { request, user } => {
            assert!(!user.is_empty());
            assert!(user.starts_with("image_"));
            assert_eq!(request.user, Some(user.clone()));
            assert_eq!(request.prompt, "a cat");
            let response = ImagesResponse {
                created: 1,
                data: vec![ImageObject {
                    b64_json: None,
                    url: Some("/archives/file_9/out.png".to_string()),
                    prompt: None,
                }],
            };
            let r = finish_generation(request.response_format, &user, Ok(response), false, "h");
            assert_eq!(r.status, 200);
            assert_eq!(header(&r, "user"), Some(user));
            assert_eq!(
                text(&r),
                "{\"created\":1,\"data\":[{\"url\":\"http://h/v1/files/download/file_9\"}]}"
            );
        }
        other => panic!("{:?}", other),
    }
}

#[test]
fn a_json_request_with_user_keeps_it() {
    match accept_generation(Ok(json_request(Some("alice")))) {
        Begun::Engine { request, user } => {
            assert_eq!(user, "alice");
            assert_eq!(request.user, Some("alice".to_string()));
        }
        other => panic!("{:?}", other),
    }
}

#[test]
fn a_body_that_is_no_json_is_a_bad_request() {
    match accept_generation(Err("expected value at line 1 column 1".to_string())) {
        Begun::Answer(r) => {
            assert_eq!(r.status, 400);
            assert_eq!(
                text(&r),
                "400 Bad Request: Fail to deserialize image create request: expected value at line 1 column 1"
            );
        }
        other => panic!("{:?}", other),
    }
}

#[test]
fn generation_begins_by_method_and_content_type() {
    let mut registry = FileRegistry::new();
    match begin_generation("OPTIONS", None, Vec::new(), &mut registry, 1) {
        Begun::Answer(r) => {
            assert_eq!(r.status, 200);
            assert!(r.body.is_empty());
        }
        other => panic!("{:?}", other),
    }
    assert!(matches!(
        begin_generation("POST", Some("application/json"), b"{}".to_vec(), &mut registry, 1),
        Begun::Json
    ));
    match begin_generation("GET", None, Vec::new(), &mut registry, 1) {
        Begun::Answer(r) => {
            assert_eq!(r.status, 500);
            assert_eq!(text(&r), "500 Internal Server Error: Invalid HTTP Method.");
        }
        other => panic!("{:?}", other),
    }
    let b = body(vec![text_part("model", "sd"), text_part("prompt", "a cat")]);
    match begin_generation("POST", Some(MULTIPART), b, &mut registry, 1) {
        Begun::Engine { request, user } => {
            assert_eq!(request.model, "sd");
            assert_eq!(request.prompt, "a cat");
            assert_eq!(request.user, Some(user.clone()));
            assert!(user.starts_with("image_"));
        }
        other => panic!("{:?}", other),
    }
}

#[test]
fn generation_answers_an_unknown_field_with_a_bad_request() {
    let mut registry = FileRegistry::new();
    let b = body(vec![
        file_part("control_image", "edge.png", &[1, 2]),
        text_part("colour", "red"),
    ]);
    match begin_generation("POST", Some(MULTIPART), b, &mut registry, 1) {
        Begun::Answer(r) => {
            assert_eq!(r.status, 400);
            assert_eq!(text(&r), "400 Bad Request: Unsupported field: colour");
        }
        other => panic!("{:?}", other),
    }
    assert_eq!(registry.len(), 1);
}

#[test]
fn edit_and_variation_allow_post_only() {
    let mut registry = FileRegistry::new();
    match begin_edit("GET", Some(MULTIPART), Vec::new(), &mut registry, 1) {
        Begun::Answer(r) => {
            assert_eq!(r.status, 405);
            assert_eq!(text(&r), "405 Method Not Allowed: GET");
        }
        other => panic!("{:?}", other),
    }
    match begin_variation("PUT", Some(MULTIPART), Vec::new(), &mut registry, 1) {
        Begun::Answer(r) => assert_eq!(r.status, 405),
        other => panic!("{:?}", other),
    }
    match begin_edit("OPTIONS", None, Vec::new(), &mut registry, 1) {
        Begun::Answer(r) => assert_eq!(r.status, 200),
        other => panic!("{:?}", other),
    }
    match begin_edit("POST", Some("application/json"), Vec::new(), &mut registry, 1) {
        Begun::Answer(r) => assert_eq!(r.status, 400),
        other => panic!("{:?}", other),
    }
}

#[test]
fn edit_goes_to_the_engine_with_its_image() {
    let mut registry = FileRegistry::new();
    let b = body(vec![
        file_part("image", "in.png", &[1, 2, 3]),
        text_part("model", "sd"),
        text_part("user", "carol"),
    ]);
    match begin_edit("POST", Some(MULTIPART), b, &mut registry, 5) {
        Begun::Engine { request, user } => {
            assert_eq!(user, "carol");
            assert_eq!(request.image.filename, "in.png");
            assert_eq!(registry.retrieve_content(&request.image.id).unwrap(), vec![1, 2, 3]);
            let r = finish_edit(request.response_format, &user, Err("boom".to_string()), false, "h");
            assert_eq!(r.status, 500);
            assert_eq!(
                text(&r),
                "500 Internal Server Error: Failed to get image edit result. Reason: boom"
            );
        }
        other => panic!("{:?}", other),
    }
}

#[test]
fn variation_rewrites_links_when_links_are_asked_for() {
    let mut registry = FileRegistry::new();
    let b = body(vec![
        file_part("image", "in.png", &[1]),
        text_part("model", "sd"),
        text_part("response_format", "url"),
    ]);
    match begin_variation("POST", Some(MULTIPART), b, &mut registry, 5) {
        Begun::Engine { request, user } => {
            assert_eq!(request.model, "sd");
            assert_eq!(request.response_format, Some(ResponseFormat::Url));
            let response = ImagesResponse {
                created: 2,
                data: vec![
                    ImageObject {
                        b64_json: None,
                        url: Some("/archives/file_9/out.png".to_string()),
                        prompt: None,
                    },
                    ImageObject {
                        b64_json: None,
                        url: Some("/archives/file_10/out.png".to_string()),
                        prompt: None,
                    },
                ],
            };
            let r = finish_variation(request.response_format, &user, Ok(response), true, "h:1");
            assert_eq!(r.status, 200);
            assert_eq!(
                text(&r),
                "{\"created\":2,\"data\":[{\"url\":\"https://h:1/v1/files/download/file_9\"},{\"url\":\"https://h:1/v1/files/download/file_10\"}]}"
            );
            assert!(!text(&r).contains("/archives/"));
            assert_eq!(header(&r, "user"), Some(user));
        }
        other => panic!("{:?}", other),
    }
}

#[test]
fn variation_answers_other_formats_as_they_come() {
    let response = ImagesResponse {
        created: 2,
        data: vec![ImageObject { b64_json: Some("QQ==".to_string()), url: None, prompt: None }],
    };
    let r = finish_variation(Some(ResponseFormat::B64Json), "u", Ok(response), false, "h");
    assert_eq!(r.status, 200);
    assert_eq!(text(&r), "{\"created\":2,\"data\":[{\"b64_json\":\"QQ==\"}]}");
    let response = ImagesResponse {
        created: 3,
        data: vec![ImageObject {
            b64_json: None,
            url: Some("/archives/file_9/out.png".to_string()),
            prompt: None,
        }],
    };
    let r = finish_variation(None, "u", Ok(response), false, "h");
    assert_eq!(text(&r), "{\"created\":3,\"data\":[{\"url\":\"/archives/file_9/out.png\"}]}");
    let r = finish_variation(Some(ResponseFormat::Url), "u", Err("boom".to_string()), false, "h");
    assert_eq!(r.status, 500);
    assert_eq!(
        text(&r),
        "500 Internal Server Error: Failed to get image edit result. Reason: boom"
    );
}

#[test]
fn upload_then_get_then_delete_then_get_fails() {
    let mut registry = FileRegistry::new();
    let id = upload(&mut registry, "note.txt", b"hello");
    let path = format!("/v1/files/{}", id);
    let r = handle_files("GET", &path, None, Vec::new(), &mut registry, 12);
    assert_eq!(r.status, 200);
    assert_eq!(
        text(&r),
        format!(
            "{{\"id\":\"{}\",\"bytes\":5,\"created_at\":11,\"filename\":\"note.txt\",\"object\":\"file\",\"purpose\":\"assistants\"}}",
            id
        )
    );
    let r = handle_files("DELETE", &path, None, Vec::new(), &mut registry, 13);
    assert_eq!(r.status, 200);
    assert_eq!(text(&r), format!("{{\"id\":\"{}\",\"object\":\"file\",\"deleted\":true}}", id));
    let r = handle_files("GET", &path, None, Vec::new(), &mut registry, 14);
    assert_eq!(r.status, 500);
    assert_eq!(text(&r), "500 Internal Server Error: File not found.");
}

#[test]
fn upload_answers_with_the_file_object() {
    let mut registry = FileRegistry::new();
    let r = handle_files(
        "POST",
        "/v1/files",
        Some(MULTIPART),
        body(vec![text_part("purpose", "x"), file_part("file", "a.md", b"# hi")]),
        &mut registry,
        21,
    );
    assert_eq!(r.status, 200);
    let id = registry.list()[0].id.clone();
    assert_eq!(
        text(&r),
        format!(
            "{{\"id\":\"{}\",\"bytes\":4,\"created_at\":21,\"filename\":\"a.md\",\"object\":\"file\",\"purpose\":\"assistants\"}}",
            id
        )
    );
    assert_eq!(header(&r, "Content-Type"), Some("application/json".to_string()));
}

#[test]
fn upload_without_a_file_part_fails() {
    let mut registry = FileRegistry::new();
    let r = handle_files(
        "POST",
        "/v1/files",
        Some(MULTIPART),
        body(vec![text_part("purpose", "x")]),
        &mut registry,
        21,
    );
    assert_eq!(r.status, 500);
    assert_eq!(
        text(&r),
        "500 Internal Server Error: Failed to upload the target file. Not found the target file."
    );
    let r = handle_files(
        "POST",
        "/v1/files",
        Some(MULTIPART),
        body(vec![text_part("file", "inline")]),
        &mut registry,
        21,
    );
    assert_eq!(
        text(&r),
        "500 Internal Server Error: Failed to upload the target file. The filename is not provided."
    );
    let r = handle_files("POST", "/v1/files", None, Vec::new(), &mut registry, 21);
    assert_eq!(r.status, 400);
    assert_eq!(registry.len(), 0);
}

#[test]
fn delete_of_a_never_created_id_is_answered_with_success() {
    let mut registry = FileRegistry::new();
    let r = handle_files("DELETE", "/v1/files/file_never", None, Vec::new(), &mut registry, 1);
    assert_eq!(r.status, 200);
    assert_eq!(text(&r), "{\"id\":\"file_never\",\"object\":\"file\",\"deleted\":false}");
    assert_eq!(header(&r, "Content-Type"), Some("application/json".to_string()));
}

#[test]
fn list_answers_with_all_files() {
    let mut registry = FileRegistry::new();
    let r = handle_files("GET", "/v1/files", None, Vec::new(), &mut registry, 1);
    assert_eq!(text(&r), "{\"object\":\"list\",\"data\":[]}");
    registry.insert("file_a".to_string(), "a.txt".to_string(), vec![1], 3).unwrap();
    let r = handle_files("GET", "/v1/files", None, Vec::new(), &mut registry, 1);
    assert_eq!(
        text(&r),
        "{\"object\":\"list\",\"data\":[{\"id\":\"file_a\",\"bytes\":1,\"created_at\":3,\"filename\":\"a.txt\",\"object\":\"file\",\"purpose\":\"assistants\"}]}"
    );
}

#[test]
fn content_is_wrapped_in_json_as_base64() {
    let mut registry = FileRegistry::new();
    registry.insert("file_a".to_string(), "a.txt".to_string(), b"hello".to_vec(), 3).unwrap();
    let r = handle_files("GET", "/v1/files/file_a/content", None, Vec::new(), &mut registry, 1);
    assert_eq!(r.status, 200);
    assert_eq!(
        text(&r),
        "{\"bytes\":5,\"content\":\"aGVsbG8=\",\"created_at\":3,\"filename\":\"a.txt\",\"id\":\"file_a\"}"
    );
    let r = handle_files("GET", "/v1/files/file_b/content", None, Vec::new(), &mut registry, 1);
    assert_eq!(r.status, 500);
}

#[test]
fn download_sets_type_and_disposition() {
    let mut registry = FileRegistry::new();
    registry.insert("file_a".to_string(), "cat.png".to_string(), vec![1, 2], 3).unwrap();
    registry.insert("file_b".to_string(), "tool.exe".to_string(), vec![1], 3).unwrap();
    let r = handle_files("GET", "/v1/files/download/file_a", None, Vec::new(), &mut registry, 1);
    assert_eq!(r.status, 200);
    assert_eq!(header(&r, "Content-Type"), Some("image/png".to_string()));
    assert_eq!(
        header(&r, "Content-Disposition"),
        Some("attachment; filename=cat.png".to_string())
    );
    assert_eq!(r.body, vec![1, 2]);
    let r = handle_files("GET", "/v1/files/download/file_b", None, Vec::new(), &mut registry, 1);
    assert_eq!(r.status, 500);
    assert_eq!(text(&r), "500 Internal Server Error: Unsupported file extension: exe");
    let r = handle_files("GET", "/v1/files/download/file_c", None, Vec::new(), &mut registry, 1);
    assert_eq!(text(&r), "500 Internal Server Error: File not found.");
}

#[test]
fn other_methods_and_paths_are_refused() {
    let mut registry = FileRegistry::new();
    registry.insert("file_a".to_string(), "a.txt".to_string(), vec![1], 3).unwrap();
    for method in ["PUT", "PATCH", "HEAD"] {
        let r = handle_files(method, "/v1/files", None, Vec::new(), &mut registry, 1);
        assert_eq!(r.status, 500);
        assert_eq!(text(&r), "500 Internal Server Error: unsupported uri path: /v1/files");
        let r = handle_files(method, "/v1/files/file_a", None, Vec::new(), &mut registry, 1);
        assert_eq!(r.status, 500);
        assert_eq!(
            text(&r),
            "500 Internal Server Error: unsupported uri path: /v1/files/file_a"
        );
        assert_eq!(registry.len(), 1);
        assert!(registry.contains("file_a"));
    }
    let r = handle_files("GET", "/v1/files/abc", None, Vec::new(), &mut registry, 1);
    assert_eq!(text(&r), "500 Internal Server Error: unsupported uri path: /v1/files/abc");
    let r = handle_files("OPTIONS", "/v1/files", None, Vec::new(), &mut registry, 1);
    assert_eq!(r.status, 200);
    assert!(r.body.is_empty());
}
