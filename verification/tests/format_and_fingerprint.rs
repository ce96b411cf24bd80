use sha2::{Digest, Sha256};

use llm_serving::dto::{
    default_n, default_response_format, default_size, ChatCompletionMessage, ChatCompletionRequest,
    ChatMessageContent, ContentPart, ImageUrl,
};
use llm_serving::error::AppError;
use llm_serving::fingerprint::{chat_cache_key, fingerprint_bytes, hash_chat_request, is_streaming};
use llm_serving::jsonfmt::json_escape;
use llm_serving::runtime::dummy::DummyRuntime;
use llm_serving::runtime::dummy_embedding::{fnv1a64_of_str, DummyEmbeddingRuntime};
use llm_serving::runtime::model_file::validate_model_file;
use llm_serving::runtime::GenerationOptions;
use llm_serving::strutil::{prefix_chars, u64_to_dec};

fn simple_request(model: &str, text: &str, max_tokens: Option<u32>) -> ChatCompletionRequest {
    ChatCompletionRequest {
        model: model.to_string(),
        messages: vec![ChatCompletionMessage {
            role: "user".to_string(),
            content: ChatMessageContent::Text(text.to_string()),
        }],
        stream: Some(false),
        max_tokens,
        temperature_bits: None,
        top_p_bits: None,
    }
}

#[test]
fn fingerprint_transcript_matches_the_documented_layout() {
    let req = simple_request("m", "hi", Some(5));
    let bytes = fingerprint_bytes(&req);
    let mut expected: Vec<u8> = Vec::new();
    expected.extend_from_slice(b"m");
    expected.extend_from_slice(b"user");
    expected.extend_from_slice(b"hi");
    expected.extend_from_slice(&5u32.to_le_bytes());
    assert_eq!(bytes, expected);

    let digest = hash_chat_request(&req);
    assert_eq!(digest.len(), 64);
    assert_eq!(digest, format!("{:x}", Sha256::digest(&expected)));
    assert_eq!(
        digest,
        "2ee5013ce962aaddc2c49e71ff55481925c28d9c4aaca0b10af8154e7bef5c5c"
    );
}

#[test]
fn fingerprint_mixes_image_urls_and_sampling_bits() {
    let req = ChatCompletionRequest {
        model: "m".to_string(),
        messages: vec![ChatCompletionMessage {
            role: "user".to_string(),
            content: ChatMessageContent::Parts(vec![
                ContentPart::Text { text: "a".to_string() },
                ContentPart::ImageUrl {
                    image_url: ImageUrl { url: "u://x".to_string(), detail: None },
                },
            ]),
        }],
        stream: Some(false),
        max_tokens: None,
        temperature_bits: Some(0.5f32.to_bits()),
        top_p_bits: Some(0.9f32.to_bits()),
    };
    let mut expected: Vec<u8> = Vec::new();
    expected.extend_from_slice(b"m");
    expected.extend_from_slice(b"user");
    expected.extend_from_slice(b"a");
    expected.extend_from_slice(b"u://x");
    expected.extend_from_slice(&0.5f32.to_le_bytes());
    expected.extend_from_slice(&0.9f32.to_le_bytes());
    assert_eq!(fingerprint_bytes(&req), expected);

    // The optional detail level never reaches the fingerprint.
    let mut with_detail = req;
    with_detail.messages[0].content = ChatMessageContent::Parts(vec![
        ContentPart::Text { text: "a".to_string() },
        ContentPart::ImageUrl {
            image_url: ImageUrl { url: "u://x".to_string(), detail: Some("low".to_string()) },
        },
    ]);
    assert_eq!(fingerprint_bytes(&with_detail), expected);
}

#[test]
fn identical_requests_share_a_cache_key_and_different_ones_do_not() {
    let a = simple_request("dummy-model", "hello", Some(3));
    let b = simple_request("dummy-model", "hello", Some(3));
    assert_eq!(hash_chat_request(&a), hash_chat_request(&b));
    let c = simple_request("dummy-model", "hello!", Some(3));
    assert_ne!(hash_chat_request(&a), hash_chat_request(&c));
    let d = simple_request("other-model", "hello", Some(3));
    assert_ne!(hash_chat_request(&a), hash_chat_request(&d));
}

#[test]
fn streaming_flag_controls_the_cache_key() {
    let req = simple_request("m", "x", None);
    assert!(!is_streaming(&req));
    assert!(chat_cache_key(&req, true).is_none());
    let key = chat_cache_key(&req, false).unwrap();
    assert_eq!(key, hash_chat_request(&req));
}

#[test]
fn json_escape_handles_quotes_backslashes_and_controls() {
    assert_eq!(json_escape("plain"), "plain");
    assert_eq!(json_escape("a\"b"), "a\\\"b");
    assert_eq!(json_escape("a\\b"), "a\\\\b");
    assert_eq!(json_escape("a\nb\tc\r"), "a\\nb\\tc\\r");
    assert_eq!(json_escape("\u{8}\u{c}"), "\\b\\f");
    assert_eq!(json_escape("\u{1}\u{1f}"), "\\u0001\\u001f");
    assert_eq!(json_escape("héllo ☂"), "héllo ☂");
}

#[test]
fn decimal_rendering_matches_the_standard_form() {
    assert_eq!(u64_to_dec(0), "0");
    assert_eq!(u64_to_dec(105), "105");
    assert_eq!(u64_to_dec(u64::MAX), u64::MAX.to_string());
}

#[test]
fn prefix_chars_counts_characters_not_bytes() {
    assert_eq!(prefix_chars("hello", 3), "hel");
    assert_eq!(prefix_chars("hello", 10), "hello");
    assert_eq!(prefix_chars("héllo", 2), "hé");
    assert_eq!(prefix_chars("", 4), "");
}

#[test]
fn dummy_echo_truncates_by_characters() {
    let runtime = DummyRuntime::new();
    let options = GenerationOptions::from_request(Some(3), None, None);
    assert_eq!(runtime.generate("hello", &options).unwrap(), "Echo: hel");
    let options = GenerationOptions::from_request(Some(100), None, None);
    assert_eq!(runtime.generate("hello", &options).unwrap(), "Echo: hello");

    let urls = vec!["u://1".to_string(), "u://2".to_string()];
    let out = runtime.generate_from_vision("look", &urls, &options).unwrap();
    assert_eq!(out, "Echo(Vision): look | images=2");
    // The vision echo is truncated as a whole.
    let tight = GenerationOptions::from_request(Some(16), None, None);
    let out = runtime.generate_from_vision("look", &urls, &tight).unwrap();
    assert_eq!(out, "Echo(Vision): lo");
}

#[test]
fn generation_options_default_sensibly() {
    let opts = GenerationOptions::from_request(None, None, None);
    assert_eq!(opts.max_tokens, 100);
    assert_eq!(f32::from_bits(opts.temperature_bits), 1.0);
    assert_eq!(f32::from_bits(opts.top_p_bits), 1.0);
    let opts = GenerationOptions::from_request(Some(7), Some(0.25f32.to_bits()), None);
    assert_eq!(opts.max_tokens, 7);
    assert_eq!(f32::from_bits(opts.temperature_bits), 0.25);
    assert_eq!(f32::from_bits(opts.top_p_bits), 1.0);
}

#[test]
fn image_request_defaults_match_the_api() {
    assert_eq!(default_n(), 1);
    assert_eq!(default_size(), "512x512");
    assert_eq!(default_response_format(), "b64_json");
}

#[test]
fn dummy_embedding_hash_is_deterministic_fnv1a() {
    assert_eq!(fnv1a64_of_str("hello"), 11831194018420276491u64);
    assert_eq!(fnv1a64_of_str(""), 0xcbf29ce484222325u64);
    let rt = DummyEmbeddingRuntime::new(4);
    let raw = rt.raw_components("hello");
    assert_eq!(raw, rt.raw_components("hello"));
    assert_eq!(raw.len(), 4);
    assert_eq!(raw[0], 491);
    assert_eq!(raw[1], 367);
    assert!(raw.iter().all(|&c| c < 1000));
}

#[test]
fn model_files_are_validated_by_extension_and_magic() {
    let good = b"GGUFrest-of-file".to_vec();
    assert!(validate_model_file(Some("gguf"), &good).is_ok());
    assert!(validate_model_file(Some("GGUF"), &good).is_ok());
    let bad = b"NOPE".to_vec();
    assert_eq!(
        validate_model_file(Some("gguf"), &bad).unwrap_err(),
        "Invalid GGUF header: expected 'GGUF' magic"
    );
    let short = b"GG".to_vec();
    assert!(validate_model_file(Some("gguf"), &short).is_err());
    assert!(validate_model_file(Some("ggml"), &bad).is_ok());
    assert_eq!(
        validate_model_file(Some("bin"), &good).unwrap_err(),
        "Unsupported model extension: .bin (expected .gguf or .ggml)"
    );
    assert_eq!(
        validate_model_file(None, &good).unwrap_err(),
        "Model file has no extension; expected .gguf or .ggml"
    );
}

#[test]
fn app_errors_map_to_their_status_codes() {
    assert_eq!(AppError::InternalServerError("x".to_string()).status_code(), 500);
    assert_eq!(AppError::BadRequest("x".to_string()).status_code(), 400);
    assert_eq!(AppError::NotFound("x".to_string()).status_code(), 404);
    let err = AppError::from("boom".to_string());
    assert!(matches!(&err, AppError::InternalServerError(m) if m == "boom"));
    assert_eq!(err.message(), "boom");
}
