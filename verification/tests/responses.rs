use sd_api_server::fields::{DecodeError, Field, ResponseFormat};
use sd_api_server::json::{ImageObject, ImagesResponse};
use sd_api_server::response::{
    download_response, echo_response, images_reply, is_https, json_response, json_response_for,
    preflight_response, rewrite_url, translate, ApiError, ErrorKind, HttpResponse,
};

fn headers(r: &HttpResponse) -> Vec<(String, String)> {
    r.headers.iter().map(|h| (h.name.clone(), h.value.clone())).collect()
}

fn pair(name: &str, value: &str) -> (String, String) {
    (name.to_string(), value.to_string())
}

fn cors() -> Vec<(String, String)> {
    vec![
        pair("Access-Control-Allow-Origin", "*"),
        pair("Access-Control-Allow-Methods", "*"),
        pair("Access-Control-Allow-Headers", "*"),
    ]
}

fn image(url: Option<&str>) -> ImageObject {
    ImageObject { b64_json: None, url: url.map(|u| u.to_string()), prompt: None }
}

#[test]
fn errors_are_answered_with_their_status_and_text() {
    let e = ApiError::new(ErrorKind::BadRequest, "Unsupported field: colour".to_string());
    let r = e.respond();
    assert_eq!(r.status, 400);
    assert_eq!(headers(&r), cors());
    assert_eq!(r.body, b"400 Bad Request: Unsupported field: colour");
    let e = ApiError::new(ErrorKind::InternalServerError, String::new());
    let r = e.respond();
    assert_eq!(r.status, 500);
    assert_eq!(r.body, b"500 Internal Server Error");
    let e = ApiError::new(ErrorKind::NotFound, "/v2".to_string());
    assert_eq!(e.respond().status, 404);
    let e = ApiError::new(ErrorKind::MethodNotAllowed, "PUT".to_string());
    assert_eq!(e.respond().status, 405);
}

#[test]
fn decode_errors_are_classed() {
    let e = ApiError::from_decode(&DecodeError::UnsupportedField { name: "x".to_string() });
    assert_eq!(e.kind, ErrorKind::BadRequest);
    assert_eq!(e.message, "Unsupported field: x");
    let e = ApiError::from_decode(&DecodeError::InvalidSize { raw: "x".to_string() });
    assert_eq!(e.kind, ErrorKind::BadRequest);
    let e = ApiError::from_decode(&DecodeError::MissingField { field: Field::Model });
    assert_eq!(e.kind, ErrorKind::BadRequest);
    let e = ApiError::from_decode(&DecodeError::NotText { field: Field::N });
    assert_eq!(e.kind, ErrorKind::InternalServerError);
    assert_eq!(
        e.message,
        "Failed to get the number of images. The n field in the request should be a text field."
    );
    let e = ApiError::from_decode(&DecodeError::MissingFilename { field: Field::Image });
    assert_eq!(e.kind, ErrorKind::InternalServerError);
    let e = ApiError::from_decode(&DecodeError::Unreadable {
        field: Field::Prompt,
        reason: "eof".to_string(),
    });
    assert_eq!(e.kind, ErrorKind::InternalServerError);
}

#[test]
fn json_answers_carry_the_headers() {
    let r = json_response("{}");
    assert_eq!(r.status, 200);
    let mut expected = cors();
    expected.push(pair("Content-Type", "application/json"));
    assert_eq!(headers(&r), expected);
    assert_eq!(r.body, b"{}");
    let r = json_response_for("{\"a\":\"é\"}", "image_1");
    expected.push(pair("user", "image_1"));
    assert_eq!(headers(&r), expected);
    assert_eq!(r.body, "{\"a\":\"é\"}".as_bytes());
}

#[test]
fn preflight_has_an_empty_body() {
    let r = preflight_response();
    assert_eq!(r.status, 200);
    assert!(r.body.is_empty());
    let mut expected = cors();
    expected.push(pair("Content-Type", "application/json"));
    assert_eq!(headers(&r), expected);
}

#[test]
fn echo_says_that_the_gateway_is_up() {
    let r = echo_response();
    assert_eq!(r.status, 200);
    assert!(r.headers.is_empty());
    assert_eq!(r.body, b"echo test");
}

#[test]
fn downloads_carry_type_and_disposition() {
    let r = download_response("cat.png", "image/png", vec![1, 2, 3]);
    assert_eq!(r.status, 200);
    let mut expected = cors();
    expected.push(pair("Content-Type", "image/png"));
    expected.push(pair("Content-Disposition", "attachment; filename=cat.png"));
    assert_eq!(headers(&r), expected);
    assert_eq!(r.body, vec![1, 2, 3]);
}

#[test]
fn https_by_scheme_or_by_proxy() {
    assert!(is_https(Some("https"), None));
    assert!(is_https(None, Some("https")));
    assert!(is_https(Some("http"), Some("https")));
    assert!(!is_https(Some("http"), None));
    assert!(!is_https(None, None));
    assert!(!is_https(Some("HTTPS"), Some("http")));
}

#[test]
fn links_are_rewritten_to_the_third_piece() {
    assert_eq!(
        rewrite_url("/archives/file_1/output.png", false, "localhost:8080"),
        Some("http://localhost:8080/v1/files/download/file_1".to_string())
    );
    assert_eq!(
        rewrite_url("/archives/file_1", true, "example.org"),
        Some("https://example.org/v1/files/download/file_1".to_string())
    );
    assert_eq!(
        rewrite_url("a/b/", false, "h"),
        Some("http://h/v1/files/download/".to_string())
    );
    assert_eq!(rewrite_url("/archives", false, "h"), None);
    assert_eq!(rewrite_url("", false, "h"), None);
    assert_eq!(rewrite_url("file_1", false, "h"), None);
}

#[test]
fn translate_rewrites_every_link_when_links_are_asked_for() {
    let response = ImagesResponse {
        created: 5,
        data: vec![
            ImageObject {
                b64_json: Some("QQ==".to_string()),
                url: Some("/archives/file_a/a.png".to_string()),
                prompt: Some("p".to_string()),
            },
            image(Some("/archives/file_b/b.png")),
        ],
    };
    let r = translate(response, Some(ResponseFormat::Url), true, "h:1").unwrap();
    assert_eq!(r.created, 5);
    assert_eq!(r.data.len(), 2);
    assert_eq!(r.data[0].url, Some("https://h:1/v1/files/download/file_a".to_string()));
    assert_eq!(r.data[0].b64_json, Some("QQ==".to_string()));
    assert_eq!(r.data[0].prompt, Some("p".to_string()));
    assert_eq!(r.data[1].url, Some("https://h:1/v1/files/download/file_b".to_string()));
}

#[test]
fn translate_leaves_other_formats_alone() {
    let response = ImagesResponse { created: 5, data: vec![image(Some("x")), image(None)] };
    let r = translate(response, Some(ResponseFormat::B64Json), false, "h").unwrap();
    assert_eq!(r.data[0].url, Some("x".to_string()));
    assert_eq!(r.data[1].url, None);
    let response = ImagesResponse { created: 5, data: vec![image(Some("x"))] };
    let r = translate(response, None, false, "h").unwrap();
    assert_eq!(r.data[0].url, Some("x".to_string()));
}

#[test]
fn translate_fails_on_a_link_of_fewer_than_three_pieces() {
    let response = ImagesResponse {
        created: 5,
        data: vec![image(Some("/archives/file_a/a.png")), image(Some("nolink"))],
    };
    let e = translate(response, Some(ResponseFormat::Url), false, "h").unwrap_err();
    assert_eq!(e.kind, ErrorKind::InternalServerError);
    assert_eq!(e.message, "Failed to parse the url from the image response.");
    let response = ImagesResponse { created: 5, data: vec![image(None)] };
    assert!(translate(response, Some(ResponseFormat::Url), false, "h").is_err());
}

#[test]
fn the_reply_holds_the_json_and_echoes_the_user() {
    let response = ImagesResponse { created: 5, data: vec![image(Some("/archives/file_a/a.png"))] };
    let r = images_reply(Ok(response), "x", Some(ResponseFormat::Url), false, "h:8080", "image_7");
    assert_eq!(r.status, 200);
    assert_eq!(
        String::from_utf8(r.body.clone()).unwrap(),
        "{\"created\":5,\"data\":[{\"url\":\"http://h:8080/v1/files/download/file_a\"}]}"
    );
    assert_eq!(headers(&r).last().unwrap(), &pair("user", "image_7"));
}

#[test]
fn the_reply_to_a_failed_engine_is_an_error() {
    let r = images_reply(
        Err("no model".to_string()),
        "Failed to get image generations. Reason: ",
        Some(ResponseFormat::Url),
        false,
        "h",
        "u",
    );
    assert_eq!(r.status, 500);
    assert_eq!(
        r.body,
        b"500 Internal Server Error: Failed to get image generations. Reason: no model"
    );
}

#[test]
fn the_reply_to_an_unparsable_link_is_an_error() {
    let response = ImagesResponse { created: 5, data: vec![image(Some("a/b"))] };
    let r = images_reply(Ok(response), "x", Some(ResponseFormat::Url), false, "h", "u");
    assert_eq!(r.status, 500);
    assert_eq!(
        r.body,
        b"500 Internal Server Error: Failed to parse the url from the image response."
    );
}
