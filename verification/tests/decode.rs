use sd_api_server::draft::{decode_size, Draft};
use sd_api_server::fields::{
    lookup, DecodeError, Field, ParseReason, ResponseFormat, SamplingMethod, Variant,
};
use sd_api_server::files::FileRegistry;
use sd_api_server::multipart::Part;
use sd_api_server::number::IntError;
use sd_api_server::request::{
    decode_edit, decode_generation, decode_variation, ensure_user, read_items, settle_user,
};

const BOUNDARY: &str = "----boundary42";

fn text_part(name: &str, value: &str) -> Vec<u8> {
    format!(
        "--{}\r\nContent-Disposition: form-data; name=\"{}\"\r\n\r\n{}\r\n",
        BOUNDARY, name, value
    )
    .into_bytes()
}

fn file_part(name: &str, filename: &str, kind: &str, content: &[u8]) -> Vec<u8> {
    let mut out = format!(
        "--{}\r\nContent-Disposition: form-data; name=\"{}\"; filename=\"{}\"\r\nContent-Type: {}\r\n\r\n",
        BOUNDARY, name, filename, kind
    )
    .into_bytes();
    out.extend_from_slice(content);
    out.extend_from_slice(b"\r\n");
    out
}

fn typed_part(name: &str, kind: &str, content: &[u8]) -> Vec<u8> {
    let mut out = format!(
        "--{}\r\nContent-Disposition: form-data; name=\"{}\"\r\nContent-Type: {}\r\n\r\n",
        BOUNDARY, name, kind
    )
    .into_bytes();
    out.extend_from_slice(content);
    out.extend_from_slice(b"\r\n");
    out
}

fn body(parts: Vec<Vec<u8>>) -> Vec<u8> {
    let mut out = Vec::new();
    for p in parts {
        out.extend_from_slice(&p);
    }
    out.extend_from_slice(format!("--{}--\r\n", BOUNDARY).as_bytes());
    out
}

fn plain(name: &str, value: &str) -> (Part, String) {
    (
        Part {
            name: name.to_string(),
            filename: None,
            is_text: true,
            data: value.as_bytes().to_vec(),
            failure: None,
        },
        String::new(),
    )
}

#[test]
fn parts_come_in_the_order_of_arrival() {
    let b = body(vec![
        text_part("prompt", "a cat"),
        file_part("image", "cat.png", "image/png", &[1, 2, 3]),
        text_part("model", "sd"),
    ]);
    let items = read_items(b, BOUNDARY);
    assert_eq!(items.len(), 3);
    assert_eq!(items[0].0.name, "prompt");
    assert_eq!(items[0].0.filename, None);
    assert!(items[0].0.is_text);
    assert_eq!(items[0].0.data, b"a cat");
    assert_eq!(items[0].1, "");
    assert_eq!(items[1].0.name, "image");
    assert_eq!(items[1].0.filename, Some("cat.png".to_string()));
    assert!(!items[1].0.is_text);
    assert_eq!(items[1].0.data, vec![1, 2, 3]);
    assert!(items[1].1.starts_with("file_"));
    assert_eq!(items[1].1.len(), 41);
    assert_eq!(items[2].0.name, "model");
    assert_eq!(items[2].0.data, b"sd");
}

#[test]
fn a_body_without_parts_has_no_items() {
    assert!(read_items(Vec::new(), BOUNDARY).is_empty());
    assert!(read_items(b"garbage".to_vec(), BOUNDARY).is_empty());
}

#[test]
fn generation_fields_are_decoded() {
    let b = body(vec![
        text_part("prompt", "a cat"),
        text_part("negative_prompt", "dogs"),
        text_part("model", "sd-v1"),
        text_part("n", "3"),
        text_part("response_format", "b64_json"),
        text_part("user", "alice"),
        text_part("cfg_scale", "7.5"),
        text_part("sample_method", "heun"),
        text_part("steps", "30"),
        text_part("height", "64"),
        text_part("width", "128"),
        text_part("control_strength", "0.5"),
        text_part("seed", "-7"),
    ]);
    let mut registry = FileRegistry::new();
    let r = decode_generation(b, BOUNDARY, &mut registry, 9).unwrap();
    assert_eq!(r.prompt, "a cat");
    assert_eq!(r.negative_prompt, Some("dogs".to_string()));
    assert_eq!(r.model, "sd-v1");
    assert_eq!(r.n, Some(3));
    assert_eq!(r.response_format, Some(ResponseFormat::B64Json));
    assert_eq!(r.user, Some("alice".to_string()));
    assert_eq!(r.cfg_scale, Some("7.5".to_string()));
    assert_eq!(r.sample_method, Some(SamplingMethod::Heun));
    assert_eq!(r.steps, Some(30));
    assert_eq!(r.height, Some(64));
    assert_eq!(r.width, Some(128));
    assert_eq!(r.control_strength, Some("0.5".to_string()));
    assert_eq!(r.seed, Some(-7));
    assert!(r.control_image.is_none());
    assert_eq!(registry.len(), 0);
}

#[test]
fn generation_defaults_hold_where_no_field_sets_them() {
    let b = body(vec![text_part("model", "sd")]);
    let mut registry = FileRegistry::new();
    let r = decode_generation(b, BOUNDARY, &mut registry, 9).unwrap();
    assert_eq!(r.prompt, "");
    assert_eq!(r.negative_prompt, Some(String::new()));
    assert_eq!(r.n, Some(1));
    assert_eq!(r.response_format, Some(ResponseFormat::Url));
    assert_eq!(r.user, None);
    assert_eq!(r.cfg_scale, Some("7.0".to_string()));
    assert_eq!(r.sample_method, Some(SamplingMethod::EulerA));
    assert_eq!(r.steps, Some(20));
    assert_eq!(r.height, Some(512));
    assert_eq!(r.width, Some(512));
    assert_eq!(r.control_strength, Some("0.9".to_string()));
    assert_eq!(r.seed, Some(42));
}

#[test]
fn size_sets_height_and_width() {
    let b = body(vec![text_part("model", "sd"), text_part("size", "256x1024")]);
    let mut registry = FileRegistry::new();
    let r = decode_generation(b, BOUNDARY, &mut registry, 9).unwrap();
    assert_eq!(r.height, Some(256));
    assert_eq!(r.width, Some(1024));
}

#[test]
fn later_height_and_width_overwrite_size() {
    let b = body(vec![
        text_part("model", "sd"),
        text_part("size", "256x256"),
        text_part("height", "64"),
        text_part("width", "32"),
    ]);
    let mut registry = FileRegistry::new();
    let r = decode_generation(b, BOUNDARY, &mut registry, 9).unwrap();
    assert_eq!(r.height, Some(64));
    assert_eq!(r.width, Some(32));
}

#[test]
fn later_size_overwrites_height_and_width() {
    let b = body(vec![
        text_part("model", "sd"),
        text_part("height", "64"),
        text_part("size", "256x128"),
    ]);
    let mut registry = FileRegistry::new();
    let r = decode_generation(b, BOUNDARY, &mut registry, 9).unwrap();
    assert_eq!(r.height, Some(256));
    assert_eq!(r.width, Some(128));
}

#[test]
fn sizes_of_any_other_shape_are_invalid() {
    for s in ["256", "256x", "x256", "axb", "1x2x3", "", "256X256", "256 x 256", "-1x5", "1.5x2"] {
        match decode_size(s) {
            Err(e) => {
                assert!(matches!(e, DecodeError::InvalidSize { .. }));
                assert!(e.message().contains("Invalid size format"));
                assert!(e.is_bad_request());
            }
            Ok(v) => panic!("{:?} gave {:?}", s, v),
        }
    }
    assert_eq!(decode_size("256x256").unwrap(), (256, 256));
    assert_eq!(decode_size("+1x0").unwrap(), (1, 0));
}

#[test]
fn an_invalid_size_ends_the_assembly() {
    let b = body(vec![text_part("model", "sd"), text_part("size", "big")]);
    let mut registry = FileRegistry::new();
    let e = decode_generation(b, BOUNDARY, &mut registry, 9).unwrap_err();
    assert_eq!(
        e.message(),
        "Invalid size format. The correct format is `HeightxWidth`. Example: 256x256"
    );
}

#[test]
fn an_unknown_field_is_a_bad_request_and_earlier_files_stay() {
    let b = body(vec![
        text_part("model", "sd"),
        file_part("control_image", "edge.png", "image/png", &[9, 9]),
        text_part("colour", "red"),
        file_part("control_image", "later.png", "image/png", &[1]),
    ]);
    let mut registry = FileRegistry::new();
    let e = decode_generation(b, BOUNDARY, &mut registry, 9).unwrap_err();
    match &e {
        DecodeError::UnsupportedField { name } => assert_eq!(name, "colour"),
        other => panic!("{:?}", other),
    }
    assert!(e.is_bad_request());
    assert_eq!(e.message(), "Unsupported field: colour");
    let files = registry.list();
    assert_eq!(files.len(), 1);
    assert_eq!(files[0].filename, "edge.png");
    assert_eq!(registry.retrieve_content(&files[0].id).unwrap(), vec![9, 9]);
}

#[test]
fn each_shape_accepts_its_own_fields() {
    assert_eq!(lookup(Variant::Generation, "prompt"), Some(Field::Prompt));
    assert_eq!(lookup(Variant::Generation, "control_image"), Some(Field::ControlImage));
    assert_eq!(lookup(Variant::Generation, "image"), None);
    assert_eq!(lookup(Variant::Generation, "mask"), None);
    assert_eq!(lookup(Variant::Generation, "strength"), None);
    assert_eq!(lookup(Variant::Edit, "image"), Some(Field::Image));
    assert_eq!(lookup(Variant::Edit, "mask"), Some(Field::Mask));
    assert_eq!(lookup(Variant::Edit, "strength"), Some(Field::Strength));
    assert_eq!(lookup(Variant::Variation, "image"), Some(Field::Image));
    assert_eq!(lookup(Variant::Variation, "size"), Some(Field::Size));
    assert_eq!(lookup(Variant::Variation, "prompt"), None);
    assert_eq!(lookup(Variant::Variation, "mask"), None);
    assert_eq!(lookup(Variant::Edit, "Prompt"), None);
    assert_eq!(lookup(Variant::Edit, ""), None);
}

#[test]
fn numbers_that_do_not_parse_are_bad_requests() {
    let cases = [
        ("n", "many", "Failed to parse the number of images. Reason: invalid digit found in string"),
        ("n", "", "Failed to parse the number of images. Reason: cannot parse integer from empty string"),
        (
            "n",
            "18446744073709551616",
            "Failed to parse the number of images. Reason: number too large to fit in target type",
        ),
        ("steps", "-1", "Failed to parse the steps. Reason: invalid digit found in string"),
        ("height", "1.5", "Failed to parse the height. Reason: invalid digit found in string"),
        ("width", "w", "Failed to parse the width. Reason: invalid digit found in string"),
        ("seed", "2147483648", "Failed to parse the seed. Reason: number too large to fit in target type"),
        ("seed", "-2147483649", "Failed to parse the seed. Reason: number too small to fit in target type"),
        ("cfg_scale", "high", "Failed to parse the number of images. Reason: invalid float literal"),
        (
            "cfg_scale",
            "",
            "Failed to parse the number of images. Reason: cannot parse float from empty string",
        ),
        ("control_strength", "1,5", "Failed to parse the control_strength. Reason: invalid float literal"),
        (
            "response_format",
            "png",
            "Failed to parse the response format. Reason: provided string did not match any ResponseFormat variants",
        ),
    ];
    for (name, value, message) in cases {
        let b = body(vec![text_part("model", "sd"), text_part(name, value)]);
        let mut registry = FileRegistry::new();
        let e = decode_generation(b, BOUNDARY, &mut registry, 9).unwrap_err();
        assert!(matches!(e, DecodeError::Parse { .. }));
        assert!(e.is_bad_request());
        assert_eq!(e.message(), message);
    }
}

#[test]
fn parse_errors_carry_the_field_and_the_raw_text() {
    let mut draft = Draft::start(Variant::Generation);
    match draft.set_text(Variant::Generation, Field::N, "12a".to_string()) {
        Err(DecodeError::Parse { field, raw, cause }) => {
            assert_eq!(field, Field::N);
            assert_eq!(raw, "12a");
            assert_eq!(cause, ParseReason::Int(IntError::InvalidDigit));
        }
        other => panic!("{:?}", other),
    }
    assert_eq!(draft.n, Some(1));
}

#[test]
fn response_format_and_sample_method_ignore_case() {
    let b = body(vec![
        text_part("model", "sd"),
        text_part("response_format", "URL"),
        text_part("sample_method", "DPM++2M"),
    ]);
    let mut registry = FileRegistry::new();
    let r = decode_generation(b, BOUNDARY, &mut registry, 9).unwrap();
    assert_eq!(r.response_format, Some(ResponseFormat::Url));
    assert_eq!(r.sample_method, Some(SamplingMethod::DpmPlusPlus2m));
}

#[test]
fn an_unknown_sample_method_falls_back() {
    let b = body(vec![text_part("model", "sd"), text_part("sample_method", "magic")]);
    let mut registry = FileRegistry::new();
    let r = decode_generation(b, BOUNDARY, &mut registry, 9).unwrap();
    assert_eq!(r.sample_method, Some(SamplingMethod::EulerA));
}

#[test]
fn every_sample_method_is_read_by_its_name() {
    let table = [
        ("euler", SamplingMethod::Euler),
        ("euler_a", SamplingMethod::EulerA),
        ("heun", SamplingMethod::Heun),
        ("dpm2", SamplingMethod::Dpm2),
        ("dpm++2s_a", SamplingMethod::DpmPlusPlus2sA),
        ("dpm++2m", SamplingMethod::DpmPlusPlus2m),
        ("dpm++2mv2", SamplingMethod::DpmPlusPlus2mv2),
        ("ipndm", SamplingMethod::Ipndm),
        ("ipndm_v", SamplingMethod::IpndmV),
        ("lcm", SamplingMethod::Lcm),
    ];
    for (name, method) in table {
        let mut draft = Draft::start(Variant::Generation);
        draft.set_text(Variant::Generation, Field::SampleMethod, name.to_string()).unwrap();
        assert_eq!(draft.sample_method, Some(method));
    }
}

#[test]
fn a_binary_part_where_text_is_expected_is_refused() {
    let b = body(vec![typed_part("prompt", "application/octet-stream", &[1, 2])]);
    let mut registry = FileRegistry::new();
    let e = decode_generation(b, BOUNDARY, &mut registry, 9).unwrap_err();
    assert!(matches!(e, DecodeError::NotText { field: Field::Prompt }));
    assert!(!e.is_bad_request());
    assert_eq!(
        e.message(),
        "Failed to get the prompt. The prompt field in the request should be a text field."
    );
}

#[test]
fn text_that_is_not_utf8_is_unreadable() {
    let b = body(vec![typed_part("prompt", "text/plain", &[0xff, 0xfe])]);
    let mut registry = FileRegistry::new();
    let e = decode_generation(b, BOUNDARY, &mut registry, 9).unwrap_err();
    assert!(matches!(e, DecodeError::Unreadable { field: Field::Prompt, .. }));
    assert_eq!(e.message(), "Failed to read the prompt. stream did not contain valid UTF-8");
    assert!(!e.is_bad_request());
}

#[test]
fn non_ascii_text_is_kept() {
    let b = body(vec![text_part("model", "sd"), text_part("prompt", "un café ☕")]);
    let mut registry = FileRegistry::new();
    let r = decode_generation(b, BOUNDARY, &mut registry, 9).unwrap();
    assert_eq!(r.prompt, "un café ☕");
}

#[test]
fn a_file_without_a_name_is_refused() {
    let b = body(vec![typed_part("image", "image/png", &[1, 2])]);
    let mut registry = FileRegistry::new();
    let e = decode_edit(b, BOUNDARY, &mut registry, 9).unwrap_err();
    assert!(matches!(e, DecodeError::MissingFilename { field: Field::Image }));
    assert_eq!(e.message(), "Failed to upload the image file. The filename is not provided.");
    assert_eq!(registry.len(), 0);
}

#[test]
fn a_mask_without_a_name_is_refused() {
    let b = body(vec![typed_part("mask", "image/png", &[1, 2])]);
    let mut registry = FileRegistry::new();
    let e = decode_edit(b, BOUNDARY, &mut registry, 9).unwrap_err();
    assert_eq!(e.message(), "Failed to upload the image mask file. The filename is not provided.");
}

#[test]
fn the_model_is_needed() {
    let b = body(vec![text_part("prompt", "a cat")]);
    let mut registry = FileRegistry::new();
    let e = decode_generation(b, BOUNDARY, &mut registry, 9).unwrap_err();
    assert!(matches!(e, DecodeError::MissingField { field: Field::Model }));
    assert!(e.is_bad_request());
    assert_eq!(e.message(), "Missing field: model");
}

#[test]
fn edit_needs_the_image() {
    let b = body(vec![text_part("model", "sd"), text_part("prompt", "a cat")]);
    let mut registry = FileRegistry::new();
    let e = decode_edit(b, BOUNDARY, &mut registry, 9).unwrap_err();
    assert!(matches!(e, DecodeError::MissingField { field: Field::Image }));
}

#[test]
fn edit_stores_image_mask_and_control_image() {
    let b = body(vec![
        file_part("image", "in.png", "image/png", &[1, 2, 3]),
        file_part("mask", "mask.png", "image/png", &[4]),
        file_part("control_image", "edge.png", "image/png", &[]),
        text_part("model", "sd"),
        text_part("prompt", "a hat"),
        text_part("strength", "0.25"),
    ]);
    let mut registry = FileRegistry::new();
    let r = decode_edit(b, BOUNDARY, &mut registry, 77).unwrap();
    assert_eq!(r.image.filename, "in.png");
    assert_eq!(r.image.bytes, 3);
    assert_eq!(r.image.created_at, 77);
    assert_eq!(r.image.object, "file");
    assert_eq!(r.image.purpose, "assistants");
    assert_eq!(r.mask.as_ref().unwrap().filename, "mask.png");
    assert_eq!(r.control_image.as_ref().unwrap().bytes, 0);
    assert_eq!(r.strength, Some("0.25".to_string()));
    assert_eq!(r.prompt, "a hat");
    assert_eq!(registry.len(), 3);
    assert_eq!(registry.retrieve_content(&r.image.id).unwrap(), vec![1, 2, 3]);
    assert_eq!(registry.retrieve_content(&r.mask.unwrap().id).unwrap(), vec![4]);
}

#[test]
fn edit_rejects_a_strength_that_is_no_number() {
    let b = body(vec![text_part("strength", "strong")]);
    let mut registry = FileRegistry::new();
    let e = decode_edit(b, BOUNDARY, &mut registry, 9).unwrap_err();
    assert_eq!(e.message(), "Failed to parse the strength. Reason: invalid float literal");
}

#[test]
fn variation_keeps_the_size_as_text() {
    let b = body(vec![
        file_part("image", "in.png", "image/png", &[1]),
        text_part("model", "sd"),
        text_part("n", "2"),
        text_part("size", "64x64"),
        text_part("response_format", "url"),
        text_part("user", "bob"),
    ]);
    let mut registry = FileRegistry::new();
    let r = decode_variation(b, BOUNDARY, &mut registry, 9).unwrap();
    assert_eq!(r.size, Some("64x64".to_string()));
    assert_eq!(r.n, Some(2));
    assert_eq!(r.model, "sd");
    assert_eq!(r.response_format, Some(ResponseFormat::Url));
    assert_eq!(r.user, Some("bob".to_string()));
    assert_eq!(r.image.filename, "in.png");
}

#[test]
fn variation_has_no_defaults_and_rejects_a_prompt() {
    let b = body(vec![file_part("image", "in.png", "image/png", &[1]), text_part("model", "sd")]);
    let mut registry = FileRegistry::new();
    let r = decode_variation(b, BOUNDARY, &mut registry, 9).unwrap();
    assert_eq!(r.n, None);
    assert_eq!(r.response_format, None);
    assert_eq!(r.size, None);
    let b = body(vec![text_part("prompt", "a cat")]);
    let e = decode_variation(b, BOUNDARY, &mut registry, 9).unwrap_err();
    assert_eq!(e.message(), "Unsupported field: prompt");
}

#[test]
fn assemble_takes_the_identifier_that_comes_with_a_file() {
    let items = vec![
        plain("model", "sd"),
        (
            Part {
                name: "control_image".to_string(),
                filename: Some("edge.png".to_string()),
                is_text: false,
                data: vec![5, 6],
                failure: None,
            },
            "file_fixed".to_string(),
        ),
    ];
    let mut registry = FileRegistry::new();
    let draft = Draft::assemble(Variant::Generation, &items, &mut registry, 3).unwrap();
    assert_eq!(draft.control_image.unwrap().id, "file_fixed");
    assert_eq!(registry.retrieve_content("file_fixed").unwrap(), vec![5, 6]);
}

#[test]
fn a_file_whose_identifier_is_in_use_is_not_stored() {
    let items = vec![(
        Part {
            name: "control_image".to_string(),
            filename: Some("edge.png".to_string()),
            is_text: false,
            data: vec![5, 6],
            failure: None,
        },
        "file_fixed".to_string(),
    )];
    let mut registry = FileRegistry::new();
    registry.insert("file_fixed".to_string(), "old.png".to_string(), vec![1], 1).unwrap();
    let e = Draft::assemble(Variant::Generation, &items, &mut registry, 3).unwrap_err();
    assert!(matches!(e, DecodeError::Storage { .. }));
    assert_eq!(
        e.message(),
        "Failed to create archive document edge.png. The identifier is in use: file_fixed"
    );
    assert_eq!(registry.retrieve_content("file_fixed").unwrap(), vec![1]);
}

#[test]
fn a_part_that_could_not_be_read_is_unreadable() {
    let items = vec![(
        Part {
            name: "prompt".to_string(),
            filename: None,
            is_text: true,
            data: Vec::new(),
            failure: Some("unexpected end of file".to_string()),
        },
        String::new(),
    )];
    let mut registry = FileRegistry::new();
    let e = Draft::assemble(Variant::Generation, &items, &mut registry, 3).unwrap_err();
    assert_eq!(e.message(), "Failed to read the prompt. unexpected end of file");
}

#[test]
fn a_missing_user_gets_a_minted_name() {
    let mut user = None;
    let id = ensure_user(&mut user);
    assert_eq!(user, Some(id.clone()));
    assert!(!id.is_empty());
    assert!(id.starts_with("image_"));
    assert_eq!(id.len(), 42);
    let mut other = None;
    assert_ne!(ensure_user(&mut other), id);
}

#[test]
fn a_given_user_is_kept() {
    let mut user = Some("alice".to_string());
    assert_eq!(ensure_user(&mut user), "alice");
    assert_eq!(user, Some("alice".to_string()));
    let mut user = Some("bob".to_string());
    assert_eq!(settle_user(&mut user, "image_x".to_string()), "bob");
    let mut user = None;
    assert_eq!(settle_user(&mut user, "image_x".to_string()), "image_x");
    assert_eq!(user, Some("image_x".to_string()));
}

#[test]
fn parts_without_text_are_named_as_clients_know_them() {
    let cases = [
        ("prompt", "Failed to get the prompt. The prompt field in the request should be a text field."),
        (
            "negative_prompt",
            "Failed to get the negative prompt. The negative prompt field in the request should be a text field.",
        ),
        ("model", "Failed to get the model name. The model field in the request should be a text field."),
        ("n", "Failed to get the number of images. The n field in the request should be a text field."),
        ("size", "Failed to get the size. The size field in the request should be a text field."),
        (
            "response_format",
            "Failed to get the response format. The response format field in the request should be a text field.",
        ),
        ("user", "Failed to get the user. The user field in the request should be a text field."),
        (
            "cfg_scale",
            "Failed to get the cfg_config. The cfg_config field in the request should be a text field.",
        ),
        (
            "sample_method",
            "Failed to get the sample_method. The sample_method field in the request should be a text field.",
        ),
        ("steps", "Failed to get the steps. The steps field in the request should be a text field."),
        ("height", "Failed to get the height. The height field in the request should be a text field."),
        ("width", "Failed to get the width. The width field in the request should be a text field."),
        (
            "control_strength",
            "Failed to get the control_strength. The control_strength field in the request should be a text field.",
        ),
        ("seed", "Failed to get the seed. The seed field in the request should be a text field."),
        (
            "strength",
            "Failed to get the strength. The strength field in the request should be a text field.",
        ),
    ];
    for (name, message) in cases {
        let b = body(vec![typed_part(name, "application/octet-stream", &[1, 2])]);
        let mut registry = FileRegistry::new();
        let e = decode_edit(b, BOUNDARY, &mut registry, 9).unwrap_err();
        assert!(matches!(e, DecodeError::NotText { .. }));
        assert!(!e.is_bad_request());
        assert_eq!(e.message(), message);
    }
}

#[test]
fn parts_that_cannot_be_read_are_named_as_clients_know_them() {
    let cases = [
        ("prompt", "Failed to read the prompt. "),
        ("negative_prompt", "Failed to read the prompt. "),
        ("model", "Failed to read the model. "),
        ("n", "Failed to read the number of images. "),
        ("size", "Failed to read the size. "),
        ("response_format", "Failed to read the response format. "),
        ("user", "Failed to read the user. "),
        ("cfg_scale", "Failed to read the cfg_config. "),
        ("sample_method", "Failed to read the sample_method. "),
        ("steps", "Failed to read the steps. "),
        ("height", "Failed to read the height. "),
        ("width", "Failed to read the width. "),
        ("control_strength", "Failed to read the control_strength. "),
        ("seed", "Failed to read the seed. "),
        ("strength", "Failed to read the strength. "),
    ];
    for (name, prefix) in cases {
        let b = body(vec![typed_part(name, "text/plain", &[0xff, 0xfe])]);
        let mut registry = FileRegistry::new();
        let e = decode_edit(b, BOUNDARY, &mut registry, 9).unwrap_err();
        assert!(matches!(e, DecodeError::Unreadable { .. }));
        assert_eq!(e.message(), format!("{}stream did not contain valid UTF-8", prefix));
    }
    for (field, noun) in [
        (Field::Image, "image file"),
        (Field::Mask, "image mask file"),
        (Field::ControlImage, "image file"),
    ] {
        let e = DecodeError::Unreadable { field, reason: "eof".to_string() };
        assert_eq!(e.message(), format!("Failed to read the {}. eof", noun));
    }
}

fn value_of(text: &Option<String>) -> Option<f32> {
    text.as_ref().map(|t| t.parse::<f32>().unwrap())
}

#[test]
fn the_defaults_are_those_of_the_engine() {
    let ours = Draft::start(Variant::Generation);
    let theirs = endpoints::images::ImageCreateRequest::default();
    assert_eq!(ours.prompt, theirs.prompt);
    assert_eq!(ours.negative_prompt, theirs.negative_prompt);
    assert_eq!(ours.model, None);
    assert_eq!(theirs.model, "");
    assert_eq!(ours.n, theirs.n);
    assert_eq!(ours.size, theirs.size);
    assert_eq!(format!("{:?}", ours.response_format), format!("{:?}", theirs.response_format));
    assert_eq!(ours.user, theirs.user);
    assert_eq!(value_of(&ours.cfg_scale), theirs.cfg_scale);
    assert_eq!(format!("{:?}", ours.sample_method), format!("{:?}", theirs.sample_method));
    assert_eq!(ours.steps, theirs.steps);
    assert_eq!(ours.height, theirs.height);
    assert_eq!(ours.width, theirs.width);
    assert_eq!(value_of(&ours.control_strength), theirs.control_strength);
    assert!(ours.control_image.is_none() && theirs.control_image.is_none());
    assert_eq!(ours.seed, theirs.seed);
    assert_eq!(value_of(&ours.strength), theirs.strength);

    let ours = Draft::start(Variant::Edit);
    let theirs = endpoints::images::ImageEditRequest::default();
    assert_eq!(ours.prompt, theirs.prompt);
    assert_eq!(ours.negative_prompt, theirs.negative_prompt);
    assert_eq!(ours.n, theirs.n);
    assert_eq!(ours.size, theirs.size);
    assert_eq!(format!("{:?}", ours.response_format), format!("{:?}", theirs.response_format));
    assert_eq!(ours.user, theirs.user);
    assert_eq!(value_of(&ours.cfg_scale), theirs.cfg_scale);
    assert_eq!(format!("{:?}", ours.sample_method), format!("{:?}", theirs.sample_method));
    assert_eq!(ours.steps, theirs.steps);
    assert_eq!(ours.height, theirs.height);
    assert_eq!(ours.width, theirs.width);
    assert_eq!(value_of(&ours.control_strength), theirs.control_strength);
    assert!(ours.mask.is_none() && theirs.mask.is_none());
    assert!(ours.control_image.is_none() && theirs.control_image.is_none());
    assert_eq!(ours.seed, theirs.seed);
    assert_eq!(value_of(&ours.strength), theirs.strength);

    let ours = Draft::start(Variant::Variation);
    let theirs = endpoints::images::ImageVariationRequest::default();
    assert_eq!(ours.n, theirs.n);
    assert_eq!(ours.size, theirs.size);
    assert!(ours.response_format.is_none() && theirs.response_format.is_none());
    assert_eq!(ours.user, theirs.user);
    assert_eq!(theirs.model, "");
}
