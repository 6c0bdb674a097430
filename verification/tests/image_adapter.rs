use base64::Engine;
use mcpg_plugin_backend_llm_gemini::image_adapter::{
    aspect_ratio_for_size, decode_image, decode_response, encode_request, map_status_error,
};
use mcpg_plugin_backend_llm_gemini::json::{Json, Number};
use mcpg_plugin_backend_llm_gemini::normalized::{NormalizedImageRequest, ProviderError};
use mcpg_plugin_backend_llm_gemini::GeminiImageAdapter;
use serde_json::Value;
use std::time::Duration;

fn value(json: &Json) -> Value {
    match json {
        Json::Null => Value::Null,
        Json::Bool(b) => Value::Bool(*b),
        Json::Number(Number::PosInt(n)) => Value::from(*n),
        Json::Number(Number::NegInt(n)) => Value::from(*n),
        Json::Number(Number::Float(bits)) => Value::from(f64::from_bits(*bits)),
        Json::Text(s) => Value::from(s.as_str()),
        Json::Array(items) => Value::Array(items.iter().map(value).collect()),
        Json::Object(entries) => Value::Object(
            entries
                .iter()
                .map(|(key, item)| (key.clone(), value(item)))
                .collect(),
        ),
    }
}

fn parsed(text: &str) -> Json {
    Json::parse_str(text).expect("valid JSON")
}

fn request(prompt: &str) -> NormalizedImageRequest {
    NormalizedImageRequest {
        model: "imagen-3.0-generate-001".into(),
        prompt: prompt.into(),
        n: 1,
        size: None,
        quality: None,
        style: None,
        seed: None,
        negative_prompt: None,
        output_format: None,
    }
}

fn adapter(base_url: &str, key: &str) -> GeminiImageAdapter {
    GeminiImageAdapter::new(base_url, key, Duration::from_secs(1))
        .ok()
        .expect("adapter")
}

#[test]
fn encode_request_includes_aspect_ratio_for_known_size() {
    let r = NormalizedImageRequest {
        n: 2,
        size: Some("1024x1024".into()),
        ..request("a cat")
    };
    let body = value(&encode_request(&r));
    assert_eq!(body["instances"][0]["prompt"], "a cat");
    assert_eq!(body["parameters"]["sampleCount"], 2);
    assert_eq!(body["parameters"]["sampleImageSize"], "1024x1024");
    assert_eq!(body["parameters"]["aspectRatio"], "1:1");
}

#[test]
fn encode_request_includes_seed_when_set() {
    let r = NormalizedImageRequest {
        model: "imagen".into(),
        seed: Some(42),
        ..request("x")
    };
    let body = value(&encode_request(&r));
    assert_eq!(body["parameters"]["seed"], 42);
}

#[test]
fn encode_request_passes_negative_prompt_through() {
    let r = NormalizedImageRequest {
        negative_prompt: Some("blurry, extra limbs".into()),
        ..request("a cat")
    };
    let body = value(&encode_request(&r));
    assert_eq!(body["parameters"]["negativePrompt"], "blurry, extra limbs");
}

#[test]
fn aspect_ratio_for_size_handles_common_ratios() {
    assert_eq!(aspect_ratio_for_size("1024x1024"), Some("1:1"));
    assert_eq!(aspect_ratio_for_size("1920x1080"), Some("16:9"));
    assert_eq!(aspect_ratio_for_size("1080x1920"), Some("9:16"));
    assert_eq!(aspect_ratio_for_size("1024x768"), Some("4:3"));
    assert_eq!(aspect_ratio_for_size("768x1024"), Some("3:4"));
    assert_eq!(aspect_ratio_for_size("1234x567"), None);
    assert_eq!(aspect_ratio_for_size("not a size"), None);
}

#[test]
fn decode_response_parses_predictions() {
    let payload = b"image bytes here";
    let b64 = base64::engine::general_purpose::STANDARD.encode(payload);
    let raw = parsed(&format!(
        "{{\"predictions\": [{{\"bytesBase64Encoded\": \"{}\", \"mimeType\": \"image/png\"}}]}}",
        b64
    ));
    let r = decode_response(&raw).unwrap();
    assert_eq!(r.images.len(), 1);
    assert_eq!(r.images[0].bytes.as_slice(), payload);
    assert_eq!(r.images[0].mime_type, "image/png");
    assert!(r.images[0].revised_prompt.is_none());
}

#[test]
fn decode_response_rejects_missing_predictions() {
    let err = decode_response(&parsed("{}")).unwrap_err();
    assert!(matches!(err, ProviderError::Malformed { .. }));
    assert_eq!(err.message(), "response missing `predictions`");
}

#[test]
fn decode_response_rejects_missing_bytes() {
    let err = decode_response(&parsed("{\"predictions\": [{}]}")).unwrap_err();
    assert!(matches!(err, ProviderError::Malformed { .. }));
    assert_eq!(err.message(), "prediction missing `bytesBase64Encoded`");
}

#[test]
fn endpoint_url_appends_predict_path() {
    let a = adapter("https://generativelanguage.googleapis.com/v1beta", "k");
    assert_eq!(
        a.endpoint_url("imagen-3.0-generate-001"),
        "https://generativelanguage.googleapis.com/v1beta/models/imagen-3.0-generate-001:predict"
    );
}

#[test]
fn image_adapter_build_headers_rejects_empty_api_key() {
    let a = adapter("https://generativelanguage.googleapis.com/v1beta", "");
    let err = a.build_headers().err().expect("refused");
    assert!(matches!(err, ProviderError::AuthFailed { .. }));
}

#[test]
fn sizes_are_read_as_numbers() {
    assert_eq!(aspect_ratio_for_size("+16x9"), Some("16:9"));
    assert_eq!(aspect_ratio_for_size("0016x009"), Some("16:9"));
    assert_eq!(aspect_ratio_for_size("16x9x"), None);
    assert_eq!(aspect_ratio_for_size("x9"), None);
    assert_eq!(aspect_ratio_for_size("16x"), None);
    assert_eq!(aspect_ratio_for_size("+x+"), None);
    assert_eq!(aspect_ratio_for_size("-16x9"), None);
    assert_eq!(aspect_ratio_for_size("16X9"), None);
    assert_eq!(aspect_ratio_for_size("0x0"), Some("1:1"));
    assert_eq!(aspect_ratio_for_size("4294967295x4294967295"), Some("1:1"));
    assert_eq!(aspect_ratio_for_size("4294967296x4294967296"), None);
    assert_eq!(aspect_ratio_for_size("3758096384x2113929216"), Some("16:9"));
}

#[test]
fn turning_a_picture_turns_its_label() {
    for (size, turned, label, other) in [
        ("32x18", "18x32", "16:9", "9:16"),
        ("8x6", "6x8", "4:3", "3:4"),
        ("7x7", "7x7", "1:1", "1:1"),
    ] {
        assert_eq!(aspect_ratio_for_size(size), Some(label));
        assert_eq!(aspect_ratio_for_size(turned), Some(other));
    }
}

#[test]
fn settings_that_imagen_lacks_have_no_effect() {
    let plain = value(&encode_request(&request("x")));
    let r = NormalizedImageRequest {
        quality: Some("hd".into()),
        style: Some("vivid".into()),
        output_format: Some("webp".into()),
        ..request("x")
    };
    assert_eq!(plain, value(&encode_request(&r)));
    let odd = NormalizedImageRequest {
        size: Some("1234x567".into()),
        ..request("x")
    };
    let body = value(&encode_request(&odd));
    assert_eq!(body["parameters"]["sampleImageSize"], "1234x567");
    assert!(body["parameters"].get("aspectRatio").is_none());
}

#[test]
fn images_come_in_the_order_of_the_predictions() {
    let raw = parsed(
        "{\"predictions\": [{\"bytesBase64Encoded\": \"AQI=\"}, {\"bytesBase64Encoded\": \"Aw==\", \"mimeType\": \"image/jpeg\"}]}",
    );
    let r = decode_response(&raw).unwrap();
    assert_eq!(r.images.len(), 2);
    assert_eq!(r.images[0].bytes, vec![1, 2]);
    assert_eq!(r.images[0].mime_type, "image/png");
    assert_eq!(r.images[1].bytes, vec![3]);
    assert_eq!(r.images[1].mime_type, "image/jpeg");
}

#[test]
fn base64_that_is_none_is_told() {
    let raw = parsed("{\"predictions\": [{\"bytesBase64Encoded\": \"***\"}]}");
    let err = decode_response(&raw).unwrap_err();
    assert!(matches!(err, ProviderError::Malformed { .. }));
    assert!(err.message().starts_with("decode bytesBase64Encoded: "));
    let err = decode_image(&Json::Null, Err("why".into())).unwrap_err();
    assert_eq!(err.message(), "decode bytesBase64Encoded: why");
    let image = decode_image(&Json::Null, Ok(vec![7])).unwrap();
    assert_eq!(image.bytes, vec![7]);
    assert_eq!(image.mime_type, "image/png");
}

#[test]
fn every_image_status_has_its_class() {
    assert!(matches!(map_status_error(401, b"no"), ProviderError::AuthFailed { .. }));
    assert!(matches!(map_status_error(403, b"no"), ProviderError::AuthFailed { .. }));
    assert!(matches!(map_status_error(429, b"no"), ProviderError::RateLimited { .. }));
    assert!(matches!(map_status_error(400, b"token"), ProviderError::BadRequest { .. }));
    assert!(matches!(map_status_error(503, b"no"), ProviderError::Server { .. }));
    let e = map_status_error(304, b"same");
    assert!(matches!(e, ProviderError::Network { .. }));
    assert_eq!(e.message(), "unexpected status 304 Not Modified: same");
}

#[test]
fn image_replies_are_read_by_their_status() {
    let a = adapter("https://x", "k");
    let r = a
        .read_reply(200, b"{\"predictions\": [{\"bytesBase64Encoded\": \"AQ==\"}]}")
        .unwrap();
    assert_eq!(r.images[0].bytes, vec![1]);
    let err = a.read_reply(201, b"[").unwrap_err();
    assert!(err.message().starts_with("parse response json: "));
    assert!(matches!(
        a.read_reply(429, b"no").unwrap_err(),
        ProviderError::RateLimited { .. }
    ));
    let prepared = a.prepare(&request("x")).ok().expect("prepared");
    assert_eq!(prepared.url, "https://x/models/imagen-3.0-generate-001:predict");
    assert_eq!(prepared.headers[1].name, "x-goog-api-key");
    assert!(adapter("https://x", "").prepare(&request("x")).is_err());
}
