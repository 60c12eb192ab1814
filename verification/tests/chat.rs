use shaide::chat_request::{
    check_image_support, count_user_message_images, decode_image_data_url, does_user_message_have_images,
    image_dimensions, user_message_image_urls, validate_image_url_vision_limits,
    validate_user_message_vision_limits, ChatMessage, ChatRequest, UserContent, UserContentPart, VisionLimits,
};
use shaide::error::ShaideError;

const ONE_BY_ONE_PNG_DATA_URL: &str = "data:image/png;base64,iVBORw0KGgoAAAANSUhEUgAAAAEAAAABCAQAAAC1HAwCAAAAC0lEQVR42mP8/x8AAwMCAO+/p9sAAAAASUVORK5CYII=";

fn model_with_vision_limits(
    name: &str,
    max_images_per_request: Option<i64>,
    max_image_bytes: Option<i64>,
    max_image_width_px: Option<i64>,
    max_image_height_px: Option<i64>,
) -> VisionLimits {
    VisionLimits {
        name: name.to_owned(),
        supports_images: true,
        max_images_per_request,
        max_image_bytes,
        max_image_width_px,
        max_image_height_px,
    }
}

fn request_with_images(model: &str, images: &[&str]) -> ChatRequest {
    ChatRequest {
        model: model.to_owned(),
        messages: vec![ChatMessage::User(UserContent::Array(
            images.iter().map(|url| UserContentPart::ImageUrl((*url).to_owned())).collect(),
        ))],
        max_completion_tokens: None,
    }
}

fn message_of(err: ShaideError) -> String {
    match err {
        ShaideError::BadRequestWithMessage(message) => message,
        other => panic!("unexpected error {other:?}"),
    }
}

#[test]
fn gemma_model_limit_allows_four_images() {
    let model = model_with_vision_limits("google/gemma-4-26b-a4b-it-maas", Some(4), None, None, None);
    let images = [ONE_BY_ONE_PNG_DATA_URL, ONE_BY_ONE_PNG_DATA_URL, ONE_BY_ONE_PNG_DATA_URL, ONE_BY_ONE_PNG_DATA_URL];
    let request = request_with_images(&model.name, &images);

    validate_user_message_vision_limits(&request, &model).expect("four images should be accepted");
}

#[test]
fn gemma_model_limit_rejects_more_than_four_images() {
    let model = model_with_vision_limits("google/gemma-4-26b-a4b-it-maas", Some(4), None, None, None);
    let images = [
        ONE_BY_ONE_PNG_DATA_URL,
        ONE_BY_ONE_PNG_DATA_URL,
        ONE_BY_ONE_PNG_DATA_URL,
        ONE_BY_ONE_PNG_DATA_URL,
        ONE_BY_ONE_PNG_DATA_URL,
    ];
    let request = request_with_images(&model.name, &images);

    let answer = validate_user_message_vision_limits(&request, &model)
        .expect_err("more than four images should be rejected")
        .classify();

    assert_eq!(answer.status, 400);
    assert_eq!(
        answer.body.error.message,
        "This request contains too many images for model 'google/gemma-4-26b-a4b-it-maas'. The model accepts up to 4 images per request."
    );
    assert_eq!(answer.body.error.error_type, "invalid_request_error");
}

#[test]
fn mistral_style_limit_rejects_oversized_inline_image_bytes() {
    let model = model_with_vision_limits("mistral-small-2506", None, Some(8), None, None);
    let request = request_with_images(&model.name, &[ONE_BY_ONE_PNG_DATA_URL]);
    let err = validate_user_message_vision_limits(&request, &model).expect_err("image bytes should be rejected");

    assert!(message_of(err).contains("too large"));
}

#[test]
fn anthropic_style_limit_rejects_oversized_dimensions() {
    let model = model_with_vision_limits("opus-4-1", Some(100), Some(5 * 1024 * 1024), Some(0), Some(8000));
    let request = request_with_images(&model.name, &[ONE_BY_ONE_PNG_DATA_URL]);
    let err = validate_user_message_vision_limits(&request, &model).expect_err("image width should be rejected");

    assert!(message_of(err).contains("too wide"));
}

#[test]
fn image_dimension_parser_reads_png_dimensions() {
    let bytes = decode_image_data_url(ONE_BY_ONE_PNG_DATA_URL)
        .expect("data url should parse")
        .expect("data url should decode");

    assert_eq!(image_dimensions(&bytes), Some((1, 1)));
}

#[test]
fn decode_image_data_url_passes_through_remote_url() {
    let result = decode_image_data_url("https://example.com/photo.png").expect("remote url should not error");
    assert!(result.is_none());
}

#[test]
fn decode_image_data_url_passes_through_non_image_data_url() {
    let result = decode_image_data_url("data:text/plain;base64,aGVsbG8=").expect("non-image data url should not error");
    assert!(result.is_none());
}

#[test]
fn decode_image_data_url_accepts_uppercase_scheme() {
    let upper = ONE_BY_ONE_PNG_DATA_URL.replacen("data:", "DATA:", 1);
    let lower = decode_image_data_url(ONE_BY_ONE_PNG_DATA_URL)
        .expect("lowercase data url should parse")
        .expect("lowercase data url should decode");
    let result = decode_image_data_url(&upper)
        .expect("uppercase scheme should parse")
        .expect("uppercase scheme should decode");
    assert_eq!(result, lower);
}

#[test]
fn decode_image_data_url_rejects_missing_comma() {
    let err = decode_image_data_url("data:image/png;base64").expect_err("malformed data url should be rejected");
    assert!(message_of(err).contains("Invalid image data URL"));
}

#[test]
fn decode_image_data_url_rejects_missing_base64_marker() {
    let err = decode_image_data_url("data:image/png,iVBORw0KGgo")
        .expect_err("data url without base64 marker should be rejected");
    assert!(message_of(err).contains("base64"));
}

#[test]
fn decode_image_data_url_rejects_invalid_base64() {
    let err = decode_image_data_url("data:image/png;base64,!!!notbase64!!!")
        .expect_err("invalid base64 payload should be rejected");
    assert!(message_of(err).contains("Invalid base64 image data"));
}

#[test]
fn anthropic_style_limit_rejects_oversized_height() {
    let model = model_with_vision_limits("opus-4-1", Some(100), Some(5 * 1024 * 1024), Some(8000), Some(0));
    let request = request_with_images(&model.name, &[ONE_BY_ONE_PNG_DATA_URL]);
    let err = validate_user_message_vision_limits(&request, &model).expect_err("image height should be rejected");

    assert!(message_of(err).contains("too tall"));
}

#[test]
fn bytes_limit_accepts_image_within_budget() {
    let model = model_with_vision_limits("mistral-small-2506", None, Some(10_000), None, None);
    let request = request_with_images(&model.name, &[ONE_BY_ONE_PNG_DATA_URL]);

    validate_user_message_vision_limits(&request, &model)
        .expect("image well under the byte budget should be accepted");
}

#[test]
fn dimension_check_rejects_unparseable_image_bytes() {
    let model = model_with_vision_limits("opus-4-1", None, None, Some(100), None);
    let request = request_with_images(&model.name, &["data:image/png;base64,YWJjZA=="]);
    let err = validate_user_message_vision_limits(&request, &model)
        .expect_err("unparseable bytes should fail dimension validation");

    assert!(message_of(err).contains("Unable to determine image dimensions"));
}

#[test]
fn remote_image_url_bypasses_byte_and_dimension_checks() {
    let model = model_with_vision_limits("opus-4-1", Some(10), Some(1), Some(1), Some(1));
    let request = request_with_images(&model.name, &["https://example.com/huge.png"]);

    validate_user_message_vision_limits(&request, &model)
        .expect("remote URLs should pass through byte/dimension validation");
}

#[test]
fn multi_image_request_rejects_when_any_image_exceeds_byte_limit() {
    let model = model_with_vision_limits("mistral-small-2506", None, Some(50), None, None);
    let request = request_with_images(&model.name, &["data:image/png;base64,YWJj", ONE_BY_ONE_PNG_DATA_URL]);
    let err = validate_user_message_vision_limits(&request, &model)
        .expect_err("any oversized image should reject the whole request");

    assert!(message_of(err).contains("too large"));
}

#[test]
fn vision_limits_pass_when_request_has_no_images() {
    let model = model_with_vision_limits("opus-4-1", Some(1), Some(1), Some(1), Some(1));
    let request = ChatRequest {
        model: model.name.clone(),
        messages: vec![ChatMessage::User(UserContent::Text("no images here".to_owned()))],
        max_completion_tokens: None,
    };

    validate_user_message_vision_limits(&request, &model)
        .expect("request with no images should never trip vision limits");
}

#[test]
fn image_in_older_user_turn_is_detected() {
    let request = ChatRequest {
        model: "mistral-small-2503".to_owned(),
        messages: vec![
            ChatMessage::User(UserContent::Array(vec![UserContentPart::ImageUrl(
                "https://picsum.photos/id/237/200/300".to_owned(),
            )])),
            ChatMessage::User(UserContent::Text("latest prompt text".to_owned())),
        ],
        max_completion_tokens: None,
    };

    let has_images = does_user_message_have_images(&request);
    assert!(has_images);
}

#[test]
fn image_and_text_in_same_user_turn_are_detected_and_keep_text() {
    let request = ChatRequest {
        model: "mistral-small-2503".to_owned(),
        messages: vec![ChatMessage::User(UserContent::Array(vec![
            UserContentPart::Text("describe this image".to_owned()),
            UserContentPart::ImageUrl("https://picsum.photos/id/237/200/300".to_owned()),
        ]))],
        max_completion_tokens: None,
    };

    let has_images = does_user_message_have_images(&request);
    assert!(has_images);
}

#[test]
fn image_only_user_turn_is_allowed_and_returns_no_text() {
    let request = ChatRequest {
        model: "mistral-small-2503".to_owned(),
        messages: vec![ChatMessage::User(UserContent::Array(vec![UserContentPart::ImageUrl(
            "https://picsum.photos/id/237/200/300".to_owned(),
        )]))],
        max_completion_tokens: None,
    };

    let has_images = does_user_message_have_images(&request);

    assert!(has_images);
}

#[test]
fn older_image_does_not_allow_empty_latest_user_turn() {
    let request = ChatRequest {
        model: "mistral-small-2503".to_owned(),
        messages: vec![
            ChatMessage::User(UserContent::Array(vec![UserContentPart::ImageUrl(
                "https://picsum.photos/id/237/200/300".to_owned(),
            )])),
            ChatMessage::User(UserContent::Array(vec![])),
        ],
        max_completion_tokens: None,
    };

    let has_images = does_user_message_have_images(&request);

    assert!(has_images);
}

#[test]
fn image_urls_are_counted_across_user_turns_in_order() {
    let request = ChatRequest {
        model: "m".to_owned(),
        messages: vec![
            ChatMessage::User(UserContent::Array(vec![
                UserContentPart::ImageUrl("a".to_owned()),
                UserContentPart::Text("t".to_owned()),
                UserContentPart::ImageUrl("b".to_owned()),
            ])),
            ChatMessage::System(shaide::chat_request::SystemContent::Text("s".to_owned())),
            ChatMessage::User(UserContent::Array(vec![UserContentPart::ImageUrl("c".to_owned())])),
        ],
        max_completion_tokens: None,
    };
    assert_eq!(user_message_image_urls(&request), vec!["a", "b", "c"]);
    assert_eq!(count_user_message_images(&request), 3);
}

#[test]
fn image_input_is_refused_for_models_without_image_support() {
    let request = request_with_images("plain-model", &["https://example.com/a.png"]);
    match check_image_support(&request, false) {
        Err(ShaideError::BadRequest(m)) => assert_eq!(m, "Model 'plain-model' does not support image input"),
        other => panic!("unexpected {other:?}"),
    }
    assert!(check_image_support(&request, true).is_ok());
}

#[test]
fn single_image_limits_name_the_model_and_the_limit() {
    let model = model_with_vision_limits("m1", None, Some(8), None, None);
    let err = validate_image_url_vision_limits(ONE_BY_ONE_PNG_DATA_URL, &model).unwrap_err();
    assert_eq!(
        message_of(err),
        "An image in this request is too large for model 'm1'. The model accepts images up to 8 bytes."
    );
}
