use mcpg_plugin_backend_llm_gemini::embedding_adapter::{
    classify_status, decode_response, encode_request, map_status_error,
};
use mcpg_plugin_backend_llm_gemini::json::{Json, Number};
use mcpg_plugin_backend_llm_gemini::normalized::{NormalizedEmbeddingRequest, ProviderError};
use mcpg_plugin_backend_llm_gemini::{GeminiEmbeddingAdapter, GEMINI_MAX_INPUTS};
use serde_json::Value;
use std::time::Duration;

fn value(json: &Json) -> Value {
    match json {
        Json::Null => Value::Null,
        Json::Bool(b) => Value::Bool(*b),
        Json::Number(Number::PosInt(n)) => Value::from(*n),
        Json::Number(Number::NegInt(n)) => Value::from(*n),
        Json::Number(Number::Float(bits)) => Value::from(f64::from_bits(*bits)),
        Json::Text(s) => Value::from(s.as_str()),
        Json::Array(items) => Value::Array(items.iter().map(value).collect()),
        Json::Object(entries) => Value::Object(
            entries
                .iter()
                .map(|(key, item)| (key.clone(), value(item)))
                .collect(),
        ),
    }
}

fn parsed(text: &str) -> Json {
    Json::parse_str(text).expect("valid JSON")
}

fn adapter(base_url: &str, key: &str) -> GeminiEmbeddingAdapter {
    GeminiEmbeddingAdapter::new(base_url, key, Duration::from_secs(1))
        .ok()
        .expect("adapter")
}

#[test]
fn encode_request_emits_qualified_model_per_entry() {
    let r = NormalizedEmbeddingRequest {
        model: "text-embedding-004".into(),
        inputs: vec!["a".into(), "b".into()],
        dimensions: None,
    };
    let body = value(&encode_request(&r));
    let arr = body["requests"].as_array().unwrap();
    assert_eq!(arr.len(), 2);
    assert_eq!(arr[0]["model"], "models/text-embedding-004");
    assert_eq!(arr[0]["content"]["parts"][0]["text"], "a");
    assert!(arr[0].get("outputDimensionality").is_none());
    assert_eq!(arr[1]["content"]["parts"][0]["text"], "b");
}

#[test]
fn encode_request_includes_output_dimensionality_when_set() {
    let r = NormalizedEmbeddingRequest {
        model: "gemini-embedding-001".into(),
        inputs: vec!["a".into()],
        dimensions: Some(768),
    };
    let body = value(&encode_request(&r));
    assert_eq!(body["requests"][0]["outputDimensionality"], 768);
}

#[test]
fn decode_response_parses_well_formed_data() {
    let raw = parsed(
        "{\"embeddings\": [{\"values\": [0.1, 0.2, 0.3, 0.4]}, {\"values\": [0.5, 0.6, 0.7, 0.8]}]}",
    );
    let r = decode_response(&raw).unwrap();
    assert_eq!(r.dimensions, 4);
    assert_eq!(r.embeddings.len(), 2);
    assert!(r.usage.is_none());
}

#[test]
fn decode_response_rejects_inconsistent_dimensions() {
    let raw = parsed("{\"embeddings\": [{\"values\": [0.1, 0.2]}, {\"values\": [0.3, 0.4, 0.5]}]}");
    let err = decode_response(&raw).unwrap_err();
    assert!(matches!(err, ProviderError::Malformed { .. }));
    assert_eq!(err.message(), "embeddings have inconsistent dimensions");
}

#[test]
fn decode_response_rejects_missing_embeddings_field() {
    let raw = parsed("{}");
    let err = decode_response(&raw).unwrap_err();
    assert!(matches!(err, ProviderError::Malformed { .. }));
    assert_eq!(err.message(), "response missing `embeddings`");
}

#[test]
fn endpoint_url_appends_model_path() {
    let a = adapter("https://generativelanguage.googleapis.com/v1beta", "k");
    assert_eq!(
        a.endpoint_url("text-embedding-004"),
        "https://generativelanguage.googleapis.com/v1beta/models/text-embedding-004:batchEmbedContents"
    );
}

#[test]
fn embedding_adapter_build_headers_rejects_empty_api_key() {
    let a = adapter("https://generativelanguage.googleapis.com/v1beta", "");
    let err = a.build_headers().err().expect("refused");
    assert!(matches!(err, ProviderError::AuthFailed { .. }));
}

#[test]
fn map_status_429_rate_limited() {
    let e = map_status_error(429, b"slow down");
    assert!(matches!(e, ProviderError::RateLimited { .. }));
}

#[test]
fn vectors_hold_the_numbers_that_came() {
    let r = decode_response(&parsed("{\"embeddings\": [{\"values\": [0.5, 1, -2]}]}")).unwrap();
    assert_eq!(
        r.embeddings[0],
        vec![
            Number::Float(0.5f64.to_bits()),
            Number::PosInt(1),
            Number::NegInt(-2)
        ]
    );
    assert_eq!(r.dimensions, 3);
}

#[test]
fn the_first_vector_sets_the_length() {
    for text in [
        "{\"embeddings\": [{\"values\": []}, {\"values\": [1.0]}]}",
        "{\"embeddings\": [{\"values\": [1.0]}, {\"values\": []}]}",
        "{\"embeddings\": [{\"values\": []}, {\"values\": []}, {\"values\": [1.0]}]}",
    ] {
        let err = decode_response(&parsed(text)).unwrap_err();
        assert!(matches!(err, ProviderError::Malformed { .. }));
        assert_eq!(err.message(), "embeddings have inconsistent dimensions");
    }
    let r = decode_response(&parsed("{\"embeddings\": [{\"values\": []}, {\"values\": []}]}")).unwrap();
    assert_eq!(r.dimensions, 0);
    assert_eq!(r.embeddings.len(), 2);
    assert_eq!(decode_response(&parsed("{\"embeddings\": []}")).unwrap().dimensions, 0);
}

#[test]
fn the_first_fault_counts() {
    let err = decode_response(&parsed("{\"embeddings\": [{\"values\": [\"x\"]}, {}]}")).unwrap_err();
    assert_eq!(err.message(), "embedding contains non-number");
    let err = decode_response(&parsed("{\"embeddings\": [{}, {\"values\": [\"x\"]}]}")).unwrap_err();
    assert_eq!(err.message(), "embedding entry missing `values`");
}

#[test]
fn every_embedding_status_has_its_class() {
    assert!(matches!(
        map_status_error(400, "TOO MANY TOKENS".as_bytes()),
        ProviderError::ContextLimit { .. }
    ));
    assert!(matches!(map_status_error(400, b"no"), ProviderError::BadRequest { .. }));
    assert!(matches!(map_status_error(404, b"token"), ProviderError::BadRequest { .. }));
    assert!(matches!(map_status_error(401, b"no"), ProviderError::AuthFailed { .. }));
    assert!(matches!(map_status_error(403, b"no"), ProviderError::AuthFailed { .. }));
    assert!(matches!(map_status_error(500, b"no"), ProviderError::Server { .. }));
    let e = map_status_error(302, b"moved");
    assert!(matches!(e, ProviderError::Network { .. }));
    assert_eq!(e.message(), "unexpected status 302 Found: moved");
    assert!(e.is_retryable());
    assert!(matches!(
        classify_status(400, "x".into(), "token"),
        ProviderError::ContextLimit { .. }
    ));
}

#[test]
fn embedding_replies_are_read_by_their_status() {
    let a = adapter("https://x/", "k");
    assert_eq!(a.max_batch_size(), GEMINI_MAX_INPUTS);
    assert_eq!(GEMINI_MAX_INPUTS, 100);
    assert_eq!(a.base_url(), "https://x");
    let r = a.read_reply(200, b"{\"embeddings\": [{\"values\": [1]}]}").unwrap();
    assert_eq!(r.embeddings.len(), 1);
    let err = a.read_reply(200, b"{").unwrap_err();
    assert!(err.message().starts_with("parse response json: "));
    assert!(a.read_reply(500, b"no").unwrap_err().is_retryable());
}

#[test]
fn an_embedding_request_is_prepared_whole() {
    let a = adapter("https://x", "sesame");
    let r = NormalizedEmbeddingRequest {
        model: "m".into(),
        inputs: vec!["a".into()],
        dimensions: None,
    };
    let prepared = a.prepare(&r).ok().expect("prepared");
    assert_eq!(prepared.url, "https://x/models/m:batchEmbedContents");
    assert_eq!(prepared.headers[1].value, "sesame");
    assert!(adapter("https://x", "").prepare(&r).is_err());
    let err = GeminiEmbeddingAdapter::new("", "k", Duration::from_secs(1)).err().expect("refused");
    assert_eq!(err.message(), "base_url is empty");
}
