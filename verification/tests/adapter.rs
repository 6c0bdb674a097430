use mcpg_plugin_backend_llm_gemini::adapter::{
    body_excerpt, classify_status, decode_response, decode_usage, encode_messages, encode_request,
    encode_tool_turn, encode_user_parts, is_quotable, map_status_error,
};
use mcpg_plugin_backend_llm_gemini::http::{map_transport_error, network_error, TransportFailure};
use mcpg_plugin_backend_llm_gemini::json::{Json, Number};
use mcpg_plugin_backend_llm_gemini::normalized::{
    AudioContent, AudioFormat, AudioSource, ContentPart, FileContent, FileSource, FinishReason,
    Float, ImageContent, ImageSource, Message, NormalizedChatRequest, ProviderError,
    ToolCall, ToolChoiceWire, ToolDef,
};
use mcpg_plugin_backend_llm_gemini::GeminiAdapter;
use serde_json::Value;
use std::time::Duration;

fn value(json: &Json) -> Value {
    match json {
        Json::Null => Value::Null,
        Json::Bool(b) => Value::Bool(*b),
        Json::Number(Number::PosInt(n)) => Value::from(*n),
        Json::Number(Number::NegInt(n)) => Value::from(*n),
        Json::Number(Number::Float(bits)) => Value::from(f64::from_bits(*bits)),
        Json::Text(s) => Value::from(s.as_str()),
        Json::Array(items) => Value::Array(items.iter().map(value).collect()),
        Json::Object(entries) => Value::Object(
            entries
                .iter()
                .map(|(key, item)| (key.clone(), value(item)))
                .collect(),
        ),
    }
}

fn parsed(text: &str) -> Json {
    Json::parse_str(text).expect("valid JSON")
}

fn float(x: f64) -> Float {
    Float { bits: x.to_bits() }
}

fn baseline(messages: Vec<Message>) -> NormalizedChatRequest {
    NormalizedChatRequest {
        model: "gemini-1.5-pro".into(),
        messages,
        response_schema: None,
        strict_response: false,
        tools: vec![],
        tool_choice: ToolChoiceWire::Auto,
        temperature: None,
        top_p: None,
        max_completion_tokens: None,
        seed: None,
    }
}

fn adapter(base_url: &str, key: &str) -> GeminiAdapter {
    GeminiAdapter::new(base_url, key, Duration::from_secs(1))
        .ok()
        .expect("adapter")
}

#[test]
fn endpoint_url_includes_model_path_segment() {
    let a = adapter("https://generativelanguage.googleapis.com/v1beta", "k");
    assert_eq!(
        a.endpoint_url("gemini-1.5-pro"),
        "https://generativelanguage.googleapis.com/v1beta/models/gemini-1.5-pro:generateContent"
    );
}

#[test]
fn endpoint_url_strips_trailing_slash_in_base() {
    let a = adapter("https://generativelanguage.googleapis.com/v1beta/", "k");
    assert!(!a.endpoint_url("m").contains("//models"), "no double slash");
}

#[test]
fn encode_minimal_text_pulls_system_to_system_instruction() {
    let r = baseline(vec![Message::system("be brief"), Message::user("hi")]);
    let body = value(&encode_request(&r));
    assert_eq!(body["systemInstruction"]["parts"][0]["text"], "be brief");
    let contents = body["contents"].as_array().unwrap();
    assert_eq!(contents.len(), 1);
    assert_eq!(contents[0]["role"], "user");
    assert_eq!(contents[0]["parts"][0]["text"], "hi");
    assert!(body.get("tools").is_none());
    assert!(body.get("generationConfig").is_none());
}

#[test]
fn encode_translates_assistant_role_to_model() {
    let r = baseline(vec![
        Message::user("first"),
        Message::assistant_text_and_tool_calls("answering", vec![]),
    ]);
    let body = value(&encode_request(&r));
    let contents = body["contents"].as_array().unwrap();
    assert_eq!(contents[1]["role"], "model");
    assert_eq!(contents[1]["parts"][0]["text"], "answering");
}

#[test]
fn encode_tool_call_round_trip() {
    let r = baseline(vec![
        Message::user("look it up"),
        Message::assistant_text_and_tool_calls(
            "checking",
            vec![ToolCall {
                id: "fetch".into(),
                name: "fetch".into(),
                arguments: parsed("{\"q\": \"x\"}"),
            }],
        ),
        Message::tool_result("fetch", "{\"data\":42}"),
    ]);
    let body = value(&encode_request(&r));
    let contents = body["contents"].as_array().unwrap();
    assert_eq!(contents.len(), 3);
    assert_eq!(contents[1]["role"], "model");
    assert_eq!(contents[1]["parts"][0]["text"], "checking");
    assert_eq!(contents[1]["parts"][1]["functionCall"]["name"], "fetch");
    assert_eq!(
        contents[1]["parts"][1]["functionCall"]["args"],
        value(&parsed("{\"q\": \"x\"}"))
    );
    assert_eq!(contents[2]["role"], "user");
    assert_eq!(contents[2]["parts"][0]["functionResponse"]["name"], "fetch");
    assert_eq!(
        contents[2]["parts"][0]["functionResponse"]["response"],
        value(&parsed("{\"data\": 42}"))
    );
}

#[test]
fn encode_tool_result_non_json_is_wrapped() {
    let r = baseline(vec![
        Message::user("hi"),
        Message::tool_result("t1", "plain text result"),
    ]);
    let body = value(&encode_request(&r));
    let contents = body["contents"].as_array().unwrap();
    assert_eq!(
        contents[1]["parts"][0]["functionResponse"]["response"],
        value(&parsed("{\"result\": \"plain text result\"}"))
    );
}

#[test]
fn encode_with_tools_emits_function_declarations() {
    let mut r = baseline(vec![Message::user("hi")]);
    r.tools = vec![ToolDef {
        name: "linear.fetch".into(),
        description: "Fetch a Linear issue".into(),
        parameters: parsed("{\"type\": \"object\", \"properties\": {\"id\": {\"type\": \"string\"}}}"),
    }];
    let body = value(&encode_request(&r));
    let tools = body["tools"].as_array().unwrap();
    assert_eq!(tools.len(), 1);
    let decls = tools[0]["functionDeclarations"].as_array().unwrap();
    assert_eq!(decls.len(), 1);
    assert_eq!(decls[0]["name"], "linear.fetch");
    assert_eq!(decls[0]["description"], "Fetch a Linear issue");
    assert_eq!(body["toolConfig"]["functionCallingConfig"]["mode"], "AUTO");
}

#[test]
fn encode_required_choice_maps_to_any_uppercase() {
    let mut r = baseline(vec![Message::user("hi")]);
    r.tools = vec![ToolDef {
        name: "t".into(),
        description: "t".into(),
        parameters: parsed("{\"type\": \"object\"}"),
    }];
    r.tool_choice = ToolChoiceWire::Required;
    let body = value(&encode_request(&r));
    assert_eq!(body["toolConfig"]["functionCallingConfig"]["mode"], "ANY");
}

#[test]
fn encode_response_schema_uses_response_mime_type_and_response_schema() {
    let schema = parsed(
        "{\"type\": \"object\", \"properties\": {\"x\": {\"type\": \"string\"}}, \"required\": [\"x\"]}",
    );
    let mut r = baseline(vec![Message::user("hi")]);
    r.response_schema = Some(schema.clone());
    let body = value(&encode_request(&r));
    assert_eq!(
        body["generationConfig"]["responseMimeType"],
        "application/json"
    );
    assert_eq!(body["generationConfig"]["responseSchema"], value(&schema));
}

#[test]
fn encode_sampling_pass_through() {
    let mut r = baseline(vec![Message::user("hi")]);
    r.temperature = Some(float(0.5));
    r.top_p = Some(float(0.5));
    r.max_completion_tokens = Some(2048);
    r.seed = Some(7);
    let body = value(&encode_request(&r));
    let gc = &body["generationConfig"];
    assert_eq!(gc["temperature"].as_f64().unwrap(), 0.5);
    assert_eq!(gc["topP"].as_f64().unwrap(), 0.5);
    assert_eq!(gc["maxOutputTokens"], 2048);
    assert_eq!(gc["seed"], 7);
}

#[test]
fn decode_text_only() {
    let raw = parsed(
        "{\"candidates\": [{\"content\": {\"role\": \"model\", \"parts\": [{\"text\": \"hi back\"}]},
          \"finishReason\": \"STOP\"}],
          \"usageMetadata\": {\"promptTokenCount\": 10, \"candidatesTokenCount\": 3}}",
    );
    let r = decode_response(&raw).unwrap();
    assert_eq!(r.content, "hi back");
    assert!(r.tool_calls.is_empty());
    assert_eq!(r.finish_reason, FinishReason::Stop);
    assert_eq!(r.usage.input_tokens, 10);
    assert_eq!(r.usage.output_tokens, 3);
}

#[test]
fn decode_function_call_round_trip() {
    let raw = parsed(
        "{\"candidates\": [{\"content\": {\"role\": \"model\", \"parts\": [
            {\"text\": \"let me check\"},
            {\"functionCall\": {\"name\": \"fetch\", \"args\": {\"q\": \"hello\"}}}
          ]}, \"finishReason\": \"STOP\"}]}",
    );
    let r = decode_response(&raw).unwrap();
    assert_eq!(r.content, "let me check");
    assert_eq!(r.tool_calls.len(), 1);
    assert_eq!(r.tool_calls[0].name, "fetch");
    assert_eq!(
        value(&r.tool_calls[0].arguments),
        value(&parsed("{\"q\": \"hello\"}"))
    );
    assert!(r.tool_calls[0].id.starts_with("gemini_call_"));
    assert_eq!(r.finish_reason, FinishReason::ToolCalls);
}

#[test]
fn decode_safety_finish_maps_to_content_filter() {
    let raw = parsed(
        "{\"candidates\": [{\"content\": {\"role\": \"model\", \"parts\": [{\"text\": \"\"}]},
          \"finishReason\": \"SAFETY\"}]}",
    );
    let r = decode_response(&raw).unwrap();
    assert_eq!(r.finish_reason, FinishReason::ContentFilter);
}

#[test]
fn decode_max_tokens_finish_maps_to_length() {
    let raw = parsed(
        "{\"candidates\": [{\"content\": {\"role\": \"model\", \"parts\": [{\"text\": \"trunc...\"}]},
          \"finishReason\": \"MAX_TOKENS\"}]}",
    );
    let r = decode_response(&raw).unwrap();
    assert_eq!(r.finish_reason, FinishReason::Length);
}

#[test]
fn decode_rejects_response_without_candidates() {
    let raw = parsed("{\"usageMetadata\": {}}");
    let err = decode_response(&raw).unwrap_err();
    assert!(matches!(err, ProviderError::Malformed { .. }));
    assert_eq!(err.message(), "response has no candidates[0]");
}

#[test]
fn decode_unknown_part_shapes_skipped() {
    let raw = parsed(
        "{\"candidates\": [{\"content\": {\"role\": \"model\", \"parts\": [
            {\"text\": \"hi\"},
            {\"inlineData\": {\"mimeType\": \"image/png\", \"data\": \"...\"}}
          ]}, \"finishReason\": \"STOP\"}]}",
    );
    let r = decode_response(&raw).unwrap();
    assert_eq!(r.content, "hi");
}

#[test]
fn map_status_400_with_token_overflow_is_context_limit() {
    let e = map_status_error(
        400,
        b"{\"error\":{\"message\":\"input exceeds the maximum number of tokens\"}}",
    );
    assert!(matches!(e, ProviderError::ContextLimit { .. }));
}

#[test]
fn map_status_401_is_auth_failed() {
    let e = map_status_error(401, b"bad key");
    assert!(matches!(e, ProviderError::AuthFailed { .. }));
}

#[test]
fn map_status_429_is_rate_limited() {
    let e = map_status_error(429, b"slow down");
    assert!(matches!(e, ProviderError::RateLimited { .. }));
}

#[test]
fn map_status_503_is_server_retryable() {
    let e = map_status_error(503, b"unavailable");
    assert!(matches!(e, ProviderError::Server { .. }));
    assert!(e.is_retryable());
}

#[test]
fn encode_no_tools_omits_tool_config() {
    let body = value(&encode_request(&baseline(vec![Message::user("hi")])));
    assert!(body.get("toolConfig").is_none());
    assert!(body.get("tools").is_none());
}

#[test]
fn decode_usage_handles_missing_fields() {
    let raw = parsed(
        "{\"candidates\": [{\"content\": {\"role\": \"model\", \"parts\": [{\"text\": \"ok\"}]},
          \"finishReason\": \"STOP\"}]}",
    );
    let r = decode_response(&raw).unwrap();
    assert_eq!(r.usage.input_tokens, 0);
    assert_eq!(r.usage.output_tokens, 0);
}

#[test]
fn encode_user_image_base64_emits_inline_data() {
    let parts = vec![
        ContentPart::Text("what's here".into()),
        ContentPart::Image(ImageContent {
            source: ImageSource::Base64 {
                mime_type: "image/png".into(),
                data: "aGVsbG8=".into(),
            },
            detail: None,
        }),
    ];
    let (system, contents) = encode_messages(&[Message::user_parts(parts, "what's here".into())]);
    assert!(system.is_none());
    let first = value(&contents[0]);
    let arr = first["parts"].as_array().unwrap();
    assert_eq!(arr[0]["text"], "what's here");
    assert_eq!(arr[1]["inline_data"]["mime_type"], "image/png");
    assert_eq!(arr[1]["inline_data"]["data"], "aGVsbG8=");
}

#[test]
fn encode_user_audio_emits_inline_data_with_format_mime() {
    let parts = vec![ContentPart::Audio(AudioContent {
        source: AudioSource::Base64 {
            data: "QUJDRA==".into(),
        },
        format: AudioFormat::Wav,
    })];
    let (_, contents) = encode_messages(&[Message::user_parts(parts, String::new())]);
    let first = value(&contents[0]);
    let inline = &first["parts"][0]["inline_data"];
    assert_eq!(inline["mime_type"], "audio/wav");
    assert_eq!(inline["data"], "QUJDRA==");
}

#[test]
fn encode_user_file_url_emits_file_data() {
    let parts = vec![ContentPart::File(FileContent {
        source: FileSource::Url("https://ex.com/x.pdf".into()),
        mime_type: "application/pdf".into(),
        filename: None,
    })];
    let (_, contents) = encode_messages(&[Message::user_parts(parts, String::new())]);
    let first = value(&contents[0]);
    let fd = &first["parts"][0]["file_data"];
    assert_eq!(fd["mime_type"], "application/pdf");
    assert_eq!(fd["file_uri"], "https://ex.com/x.pdf");
}

// ----- Requests -----

#[test]
fn unresolved_resources_become_notices() {
    let parts = vec![
        ContentPart::Image(ImageContent {
            source: ImageSource::McpResource("r://1".into()),
            detail: None,
        }),
        ContentPart::Audio(AudioContent {
            source: AudioSource::McpResource("r://2".into()),
            format: AudioFormat::Other {
                mime_type: "audio/mpeg".into(),
            },
        }),
        ContentPart::File(FileContent {
            source: FileSource::McpResource("r://3".into()),
            mime_type: "text/plain".into(),
            filename: Some("x".into()),
        }),
    ];
    let v = value(&encode_user_parts(&parts));
    assert_eq!(v[0]["text"], "[unresolved image resource: r://1]");
    assert_eq!(v[1]["text"], "[unresolved audio resource: r://2]");
    assert_eq!(v[2]["text"], "[unresolved file resource: r://3]");
}

#[test]
fn urls_and_base64_of_every_kind() {
    let parts = vec![
        ContentPart::Image(ImageContent {
            source: ImageSource::Url("https://x/i".into()),
            detail: None,
        }),
        ContentPart::Audio(AudioContent {
            source: AudioSource::Url("https://x/a".into()),
            format: AudioFormat::Other {
                mime_type: "audio/mpeg".into(),
            },
        }),
        ContentPart::File(FileContent {
            source: FileSource::Base64 {
                data: "AA==".into(),
            },
            mime_type: "application/pdf".into(),
            filename: None,
        }),
    ];
    let v = value(&encode_user_parts(&parts));
    assert_eq!(v[0]["file_data"]["mime_type"], "image/*");
    assert_eq!(v[0]["file_data"]["file_uri"], "https://x/i");
    assert_eq!(v[1]["file_data"]["mime_type"], "audio/mpeg");
    assert_eq!(v[2]["inline_data"]["data"], "AA==");
}

#[test]
fn system_messages_are_joined_and_kept_out_of_the_contents() {
    let (system, contents) = encode_messages(&[
        Message::system("one"),
        Message::user("hi"),
        Message::system("two"),
    ]);
    assert_eq!(system.unwrap(), "one\n\ntwo");
    assert_eq!(contents.len(), 1);
}

#[test]
fn silent_assistant_turn_has_an_empty_text() {
    let (_, contents) = encode_messages(&[Message::assistant_text_and_tool_calls("", vec![])]);
    let turn = value(&contents[0]);
    assert_eq!(turn["parts"].as_array().unwrap().len(), 1);
    assert_eq!(turn["parts"][0]["text"], "");
}

#[test]
fn tool_result_without_an_id_goes_under_a_name_of_its_own() {
    let turn = value(&encode_tool_turn(&None, "raw", None));
    assert_eq!(
        turn["parts"][0]["functionResponse"]["name"],
        "tool_response"
    );
    assert_eq!(
        turn["parts"][0]["functionResponse"]["response"]["result"],
        "raw"
    );
}

#[test]
fn forbidden_choice_maps_to_none() {
    let mut r = baseline(vec![Message::user("hi")]);
    r.tools = vec![ToolDef {
        name: "t".into(),
        description: "t".into(),
        parameters: Json::Null,
    }];
    r.tool_choice = ToolChoiceWire::Forbidden;
    let body = value(&encode_request(&r));
    assert_eq!(body["toolConfig"]["functionCallingConfig"]["mode"], "NONE");
}

#[test]
fn numbers_that_json_lacks_become_null() {
    let mut r = baseline(vec![Message::user("hi")]);
    r.temperature = Some(float(f64::NAN));
    r.top_p = Some(float(f64::INFINITY));
    r.seed = Some(-3);
    let body = value(&encode_request(&r));
    assert!(body["generationConfig"]["temperature"].is_null());
    assert!(body["generationConfig"]["topP"].is_null());
    assert_eq!(body["generationConfig"]["seed"], -3);
}

#[test]
fn the_model_is_no_part_of_the_body() {
    let mut r = baseline(vec![Message::user("hi")]);
    let one = value(&encode_request(&r));
    r.model = "gemini-2.0-flash".into();
    assert_eq!(one, value(&encode_request(&r)));
}

#[test]
fn model_turn_reads_back() {
    let (_, contents) = encode_messages(&[Message::assistant_text_and_tool_calls(
        "so",
        vec![
            ToolCall {
                id: "a".into(),
                name: "f".into(),
                arguments: parsed("{\"k\": [1, -2, 0.5, true, null]}"),
            },
            ToolCall {
                id: "b".into(),
                name: "g".into(),
                arguments: Json::Null,
            },
        ],
    )]);
    let reply = Json::Object(vec![(
        "candidates".into(),
        Json::Array(vec![Json::Object(vec![(
            "content".into(),
            contents[0].clone(),
        )])]),
    )]);
    let r = decode_response(&reply).unwrap();
    assert_eq!(r.content, "so");
    assert_eq!(r.tool_calls.len(), 2);
    assert_eq!(r.tool_calls[0].name, "f");
    assert_eq!(
        value(&r.tool_calls[0].arguments),
        value(&parsed("{\"k\": [1, -2, 0.5, true, null]}"))
    );
    assert_eq!(r.tool_calls[1].name, "g");
}

// ----- Replies -----

#[test]
fn tool_calls_are_numbered_from_one() {
    let raw = parsed(
        "{\"candidates\": [{\"content\": {\"parts\": [
            {\"functionCall\": {\"name\": \"a\"}},
            {\"text\": \"x\", \"functionCall\": {\"name\": \"skipped\"}},
            {\"functionCall\": {\"args\": 1}}
          ]}, \"finishReason\": \"TOOL_USE\"}]}",
    );
    let r = decode_response(&raw).unwrap();
    assert_eq!(r.content, "x");
    assert_eq!(r.tool_calls.len(), 2);
    assert_eq!(r.tool_calls[0].id, "gemini_call_1");
    assert_eq!(r.tool_calls[0].name, "a");
    assert!(matches!(r.tool_calls[0].arguments, Json::Null));
    assert_eq!(r.tool_calls[1].id, "gemini_call_2");
    assert_eq!(r.tool_calls[1].name, "");
    assert_eq!(r.finish_reason, FinishReason::ToolCalls);
}

#[test]
fn texts_of_parts_are_joined() {
    let raw = parsed("{\"candidates\": [{\"content\": {\"parts\": [{\"text\": \"a\"}, {\"x\": 1}, {\"text\": \"\"}, {\"text\": \"b\"}]}}]}");
    assert_eq!(decode_response(&raw).unwrap().content, "ab");
}

#[test]
fn other_finish_reasons() {
    let raw = parsed("{\"candidates\": [{\"content\": {\"parts\": []}, \"finishReason\": \"RECITATION\"}]}");
    assert_eq!(decode_response(&raw).unwrap().finish_reason, FinishReason::Other);
    let raw = parsed("{\"candidates\": [{\"content\": {\"parts\": []}}]}");
    assert_eq!(decode_response(&raw).unwrap().finish_reason, FinishReason::Other);
}

#[test]
fn missing_content_and_parts_are_told_apart() {
    let err = decode_response(&parsed("{\"candidates\": [{}]}")).unwrap_err();
    assert_eq!(err.message(), "candidates[0].content missing");
    let err = decode_response(&parsed("{\"candidates\": [{\"content\": {}}]}")).unwrap_err();
    assert_eq!(err.message(), "candidates[0].content.parts missing");
    let err = decode_response(&parsed("{\"candidates\": []}")).unwrap_err();
    assert_eq!(err.message(), "response has no candidates[0]");
}

#[test]
fn usage_keeps_the_low_bits_and_ignores_what_is_no_count() {
    let raw = parsed(
        "{\"promptTokenCount\": 4294967298, \"candidatesTokenCount\": -1, \"cachedContentTokenCount\": 7}",
    );
    let u = decode_usage(Some(&raw));
    assert_eq!(u.input_tokens, 2);
    assert_eq!(u.output_tokens, 0);
    assert_eq!(u.cached_input_tokens, 7);
    assert_eq!(decode_usage(None).input_tokens, 0);
}

// ----- Failures -----

#[test]
fn every_status_has_its_class() {
    assert!(matches!(map_status_error(403, b"no"), ProviderError::AuthFailed { .. }));
    assert!(matches!(map_status_error(400, b"no"), ProviderError::BadRequest { .. }));
    assert!(matches!(
        map_status_error(400, b"the context length is too long"),
        ProviderError::ContextLimit { .. }
    ));
    assert!(matches!(map_status_error(404, b"no"), ProviderError::Server { .. }));
    assert!(matches!(map_status_error(302, b"no"), ProviderError::Server { .. }));
    assert!(!map_status_error(400, b"no").is_retryable());
    assert!(map_status_error(429, b"no").is_retryable());
    assert_eq!(classify_status(500, "why".into()).message(), "why");
}

#[test]
fn long_bodies_are_cut() {
    let body = vec![b'a'; 600];
    let quoted = body_excerpt(&body);
    assert_eq!(quoted, format!("{}\u{2026}[truncated]", "a".repeat(512)));
    assert_eq!(body_excerpt(&body[..512]), "a".repeat(512));
}

#[test]
fn invalid_bytes_are_replaced() {
    assert_eq!(body_excerpt(b"a\xffb"), "a\u{fffd}b");
}

#[test]
fn a_character_across_the_limit_cannot_be_quoted() {
    let mut text = "a".repeat(511);
    text.push_str("\u{e9}tail");
    assert!(!is_quotable(&text));
    let a = adapter("https://x", "k");
    assert!(a.read_reply(500, text.as_bytes()).is_none());
    assert!(matches!(a.read_stream_start(500, text.as_bytes()), Some(None)));
    assert!(is_quotable(&"\u{e9}".repeat(256)));
}

#[test]
fn replies_are_read_by_their_status() {
    let a = adapter("https://x", "k");
    let ok = b"{\"candidates\": [{\"content\": {\"parts\": [{\"text\": \"yes\"}]}, \"finishReason\": \"STOP\"}]}";
    let r = a.read_reply(200, ok).unwrap().unwrap();
    assert_eq!(r.content, "yes");
    let err = a.read_reply(200, b"not json").unwrap().unwrap_err();
    assert!(err.message().starts_with("response is not JSON: "));
    assert!(matches!(err, ProviderError::Malformed { .. }));
    let err = a.read_reply(429, b"slow down").unwrap().unwrap_err();
    assert!(matches!(err, ProviderError::RateLimited { .. }));
    assert!(a.read_stream_start(200, b"").is_none());
    assert!(matches!(
        a.read_stream_start(401, b"no"),
        Some(Some(ProviderError::AuthFailed { .. }))
    ));
}

fn failure(timeout: bool, connect: bool, request: bool) -> TransportFailure {
    TransportFailure {
        timeout,
        connect,
        request,
        body: false,
        decode: false,
        text: "why".into(),
    }
}

#[test]
fn transport_failures_are_network_failures() {
    let e = map_transport_error(&failure(true, true, true));
    assert_eq!(e.message(), "timeout: why");
    assert!(e.is_retryable());
    assert_eq!(map_transport_error(&failure(false, true, true)).message(), "connect failed: why");
    assert_eq!(map_transport_error(&failure(false, false, true)).message(), "transport: why");
    assert_eq!(map_transport_error(&failure(false, false, false)).message(), "why");
    assert_eq!(
        network_error("read response body", "why").message(),
        "read response body: why"
    );
}

// ----- Endpoints -----

#[test]
fn streaming_has_a_url_of_its_own() {
    let a = adapter("https://x///", "k");
    assert_eq!(
        a.streaming_endpoint_url("m"),
        "https://x/models/m:streamGenerateContent?alt=sse"
    );
    assert_eq!(a.label(), "gemini");
}

#[test]
fn the_key_travels_in_a_header_alone() {
    let a = adapter("https://x", "sesame");
    let prepared = a
        .prepare(&baseline(vec![Message::user("hi")]), false)
        .ok()
        .expect("prepared");
    assert_eq!(prepared.url, "https://x/models/gemini-1.5-pro:generateContent");
    assert_eq!(prepared.headers.len(), 2);
    assert_eq!(prepared.headers[0].name, "content-type");
    assert_eq!(prepared.headers[0].value, "application/json");
    assert_eq!(prepared.headers[1].name, "x-goog-api-key");
    assert_eq!(prepared.headers[1].value, "sesame");
    assert!(!value(&prepared.body).to_string().contains("sesame"));
    let streamed = a
        .prepare(&baseline(vec![Message::user("hi")]), true)
        .ok()
        .expect("prepared");
    assert_eq!(
        streamed.url,
        "https://x/models/gemini-1.5-pro:streamGenerateContent?alt=sse"
    );
}

#[test]
fn keys_that_no_header_can_carry_are_refused() {
    let err = adapter("https://x", "a\nb").build_headers().err().expect("refused");
    assert!(matches!(err, ProviderError::BadRequest { .. }));
    assert_eq!(
        err.message(),
        "api_key contains characters not allowed in HTTP headers"
    );
    assert!(adapter("https://x", "a\tb \u{e9}").build_headers().is_ok());
    assert!(adapter("https://x", "a\u{7f}").build_headers().is_err());
    assert!(adapter("https://x", "").build_headers().is_ok());
}

#[test]
fn an_empty_base_url_is_refused() {
    let err = GeminiAdapter::new("", "k", Duration::from_secs(1)).err().expect("refused");
    assert!(matches!(err, ProviderError::BadRequest { .. }));
    assert_eq!(err.message(), "gemini base_url is empty");
    let err = GeminiAdapter::with_client(Err("no TLS".into()), "https://x", "k")
        .err()
        .expect("refused");
    assert_eq!(err.message(), "build http client: no TLS");
}
