use icon_maker::openai::{
    GenerationRequest, ImageData, OpenAiError, OpenAiImageResponse, ResponseAction,
    build_image_request, image_bytes, next_action, payload_from_decoded, should_retry,
};
use icon_maker::openai::SendOutcome::{Replied, SendFailed};

#[test]
fn gpt_image_model_omits_response_format() {
    let req = GenerationRequest {
        model: "gpt-image-1.5".to_string(),
        prompt: "test".to_string(),
        seed: Some(42),
        size: "1024x1024".to_string(),
    };
    let payload = build_image_request(&req);
    assert!(payload.response_format.is_none());
    assert_eq!(payload.seed, Some(42));
    assert_eq!(payload.n, 1);
}

#[test]
fn non_gpt_image_model_includes_response_format() {
    let req = GenerationRequest {
        model: "dall-e-3".to_string(),
        prompt: "test".to_string(),
        seed: None,
        size: "1024x1024".to_string(),
    };
    let payload = build_image_request(&req);
    assert_eq!(payload.response_format, Some("b64_json"));
    assert_eq!(payload.model, "dall-e-3");
    assert_eq!(payload.prompt, "test");
    assert_eq!(payload.size, "1024x1024");
}

#[test]
fn prefix_must_match_whole_family_name() {
    for (model, omitted) in [("gpt-image-", true), ("gpt-image", false), ("GPT-image-1", false), ("", false)] {
        let req = GenerationRequest {
            model: model.to_string(),
            prompt: String::new(),
            seed: None,
            size: "1024x1024".to_string(),
        };
        assert_eq!(build_image_request(&req).response_format.is_none(), omitted, "{model}");
    }
}

#[test]
fn retry_statuses() {
    assert!(should_retry(429));
    assert!(should_retry(500));
    assert!(should_retry(503));
    assert!(should_retry(599));
    assert!(!should_retry(400));
    assert!(!should_retry(404));
    assert!(!should_retry(600));
}

#[test]
fn retry_schedule_stops_after_three_attempts() {
    assert_eq!(next_action(1, Replied(200)), ResponseAction::ReadImage);
    assert_eq!(next_action(1, Replied(429)), ResponseAction::RetryAfter(500));
    assert_eq!(next_action(2, Replied(502)), ResponseAction::RetryAfter(1000));
    assert_eq!(next_action(3, Replied(502)), ResponseAction::Fail);
    assert_eq!(next_action(1, Replied(401)), ResponseAction::Fail);
    assert_eq!(next_action(1, SendFailed), ResponseAction::Fail);
    assert_eq!(next_action(2, SendFailed), ResponseAction::Fail);

    let mut attempt = 0u32;
    loop {
        attempt += 1;
        match next_action(attempt, Replied(503)) {
            ResponseAction::RetryAfter(_) => continue,
            _ => break,
        }
    }
    assert_eq!(attempt, 3);
}

#[test]
fn image_bytes_decodes_first_entry() {
    let response = OpenAiImageResponse {
        data: vec![ImageData { b64_json: Some("aGk=".to_string()) }, ImageData { b64_json: None }],
    };
    assert_eq!(image_bytes(&response).unwrap(), b"hi".to_vec());
}

#[test]
fn image_bytes_errors() {
    let empty = OpenAiImageResponse { data: vec![] };
    let err = image_bytes(&empty).unwrap_err();
    assert!(matches!(err, OpenAiError::MissingImageData));
    assert_eq!(err.message(), "OpenAI image response did not contain b64_json data");

    let no_b64 = OpenAiImageResponse { data: vec![ImageData { b64_json: None }] };
    assert!(matches!(image_bytes(&no_b64), Err(OpenAiError::MissingImageData)));

    let bad = OpenAiImageResponse { data: vec![ImageData { b64_json: Some("@@@".to_string()) }] };
    let err = image_bytes(&bad).unwrap_err();
    match &err {
        OpenAiError::InvalidBase64(reason) => assert!(reason.contains("Invalid")),
        other => panic!("unexpected: {other:?}"),
    }
    assert_eq!(err.message(), "failed to decode base64 image payload");

    match payload_from_decoded(Err("bad padding".to_string())) {
        Err(OpenAiError::InvalidBase64(reason)) => assert_eq!(reason, "bad padding"),
        other => panic!("unexpected: {other:?}"),
    }
    assert_eq!(payload_from_decoded(Ok(vec![1, 2])).unwrap(), vec![1, 2]);
}

#[test]
fn api_error_message() {
    let err = OpenAiError::Api { status: 429, body: "slow down".to_string() };
    assert_eq!(err.message(), "OpenAI image API error 429: slow down");
}
