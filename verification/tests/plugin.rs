use mcpg_plugin_backend_llm_gemini::backend::{
    clone_backend_error, AuditOutcome, BackendError, PluginClass,
};
use mcpg_plugin_backend_llm_gemini::config::{
    ApiKeyRef, BudgetSpec, CacheSpec, ChatExecutionSpec, GuardrailsSpec, PromptSpec,
    ResponseFormatMode, ResponseFormatSpec, RetrySpec, SamplingSpec, StreamingSpec, ToolsSpec,
};
use mcpg_plugin_backend_llm_gemini::host_handle_obs::UsageSnapshot;
use mcpg_plugin_backend_llm_gemini::json::Json;
use mcpg_plugin_backend_llm_gemini::plugin::{
    accept, accept_with_client, call_response, call_status, finish_call, finish_execute,
    parse_arguments, read_arguments, resolve_api_key, Accepted, ChatEngine, ChunkKind, EndedCall,
    StreamWatch, WatchAction, Yielded,
};
use mcpg_plugin_backend_llm_gemini::{GeminiChatPlugin, GeminiChatSpec};

type Engine = ChatEngine<&'static str, &'static str, (), Vec<&'static str>>;

fn spec() -> GeminiChatSpec {
    GeminiChatSpec {
        base_url: None,
        api_key: ApiKeyRef::new("k"),
        chat: ChatExecutionSpec {
            model: "gemini-1.5-pro".into(),
            timeout_ms: 60_000,
            connect_timeout_ms: 5_000,
            prompt: PromptSpec {
                system: "x".into(),
                user: "{{ input.text }}".into(),
                ..Default::default()
            },
            sampling: SamplingSpec::default(),
            response_format: ResponseFormatSpec::default(),
            tools: ToolsSpec::default(),
            streaming: StreamingSpec::default(),
            retry: RetrySpec::default(),
            guardrails: GuardrailsSpec::default(),
            cache: CacheSpec::default(),
            budget: BudgetSpec::default(),
        },
    }
}

fn raw() -> Json {
    Json::parse_str(
        "{\"model\": \"gemini-1.5-pro\", \"api_key\": \"k\",
          \"prompt\": {\"system\": \"x\", \"user\": \"{{ input.text }}\"},
          \"output_schema\": {\"type\": \"object\", \"properties\": {\"a\": {\"type\": \"string\"}}, \"required\": [\"a\"]}}",
    )
    .unwrap()
}

fn accepted() -> Accepted {
    accept(Ok(spec())).ok().expect("accepted")
}

fn message(error: BackendError) -> String {
    match error {
        BackendError::InvalidSpec { message } => message,
        other => panic!("another failure: {:?}", other),
    }
}

#[test]
fn plugin_kind_and_manifest() {
    let p: GeminiChatPlugin<(), ()> = GeminiChatPlugin::new();
    assert_eq!(p.kind(), "gemini.chat");
    assert_eq!(p.manifest().id, "dev.mcpg.backend.gemini.chat");
    assert_eq!(p.manifest().name, "Google Gemini (AI Studio)");
    assert_eq!(p.manifest().class, PluginClass::Backend);
}

#[test]
fn register_minimal_spec() {
    let mut plugin: GeminiChatPlugin<Engine, ()> = GeminiChatPlugin::default();
    let templated = accepted()
        .with_templates(Ok("templates"), &raw())
        .ok()
        .expect("templates");
    assert!(templated.output_schema.is_some());
    let engine = templated
        .into_engine("gem", Ok(Some("validator")), (), vec!["child"])
        .ok()
        .expect("engine");
    assert_eq!(engine.backend_name, "gem");
    assert_eq!(engine.spec.model, "gemini-1.5-pro");
    assert_eq!(engine.validator, Some("validator"));
    assert!(engine.raw_output_schema.is_some());
    assert_eq!(engine.child_tool_defs, vec!["child"]);
    assert!(engine.child_tool_validators.is_empty());
    assert!(engine.spec.streaming.section.is_none());
    plugin.register("gem", engine);
    assert_eq!(plugin.registered_profile_count(), 1);
}

#[test]
fn profiles_are_replaced_and_found_by_name() {
    let mut plugin: GeminiChatPlugin<u8, ()> = GeminiChatPlugin::new();
    assert_eq!(plugin.registered_profile_count(), 0);
    plugin.register("a", 1);
    plugin.register("b", 2);
    plugin.register("a", 3);
    assert_eq!(plugin.registered_profile_count(), 2);
    assert_eq!(*plugin.engine("a").unwrap(), 3);
    assert_eq!(*plugin.engine("b").unwrap(), 2);
    match plugin.engine("c") {
        Err(BackendError::ProfileNotFound { backend_name }) => assert_eq!(backend_name, "c"),
        other => panic!("found: {:?}", other),
    }
}

#[test]
fn the_first_host_stays() {
    let mut plugin: GeminiChatPlugin<(), u8> = GeminiChatPlugin::new();
    assert!(plugin.host_handle().is_none());
    assert!(plugin.set_host_handle(1));
    assert!(!plugin.set_host_handle(2));
    assert_eq!(plugin.host_handle(), Some(&1));
}

#[test]
fn refused_profiles_say_why() {
    let unread = accept(Err("missing field `model`".into())).err().expect("refused");
    assert_eq!(message(unread), "gemini_chat spec: missing field `model`");
    let mut s = spec();
    s.chat.prompt.user = " ".into();
    let invalid = accept(Ok(s)).err().expect("refused");
    assert_eq!(message(invalid), "prompt.user must not be empty");
    let mut s = spec();
    s.api_key = ApiKeyRef::new("");
    let keyless = accept(Ok(s)).err().expect("refused");
    assert_eq!(message(keyless), "api_key is empty");
    let mut s = spec();
    s.base_url = Some("".into());
    let nowhere = accept(Ok(s)).err().expect("refused");
    assert_eq!(message(nowhere), "build gemini adapter: gemini base_url is empty");
    let mut s = spec();
    s.base_url = Some("".into());
    let client = Ok(reqwest::Client::new());
    let nowhere = accept_with_client(Ok(s), client).err().expect("refused");
    assert_eq!(message(nowhere), "build gemini adapter: gemini base_url is empty");
    assert!(accept_with_client(Ok(spec()), Ok(reqwest::Client::new())).is_ok());
    let clientless = accept_with_client(Ok(spec()), Err("no TLS".into())).err().expect("refused");
    assert_eq!(
        message(clientless),
        "build gemini adapter: build http client: no TLS"
    );
}

#[test]
fn keys_are_resolved_unless_empty() {
    assert_eq!(resolve_api_key(&ApiKeyRef::new("k")).unwrap(), "k");
    assert!(resolve_api_key(&ApiKeyRef::new("")).is_err());
}

#[test]
fn an_accepted_profile_calls_where_it_says() {
    let mut s = spec();
    s.base_url = Some("http://localhost:1/".into());
    let profile = accept(Ok(s)).ok().expect("accepted");
    assert_eq!(
        profile.adapter.endpoint_url("m"),
        "http://localhost:1/models/m:generateContent"
    );
    assert_eq!(profile.adapter.build_headers().ok().unwrap()[1].value, "k");
}

#[test]
fn templates_and_schemas_that_do_not_compile_are_refused() {
    let bad: Result<&str, String> = Err("unclosed".into());
    let refused = accepted().with_templates(bad, &raw()).err().expect("refused");
    assert_eq!(message(refused), "template: unclosed");
    let compiled: Result<Option<&str>, String> = Err("bad schema".into());
    let refused = accepted()
        .with_templates(Ok("t"), &raw())
        .ok()
        .expect("templates")
        .into_engine("gem", compiled, (), ())
        .err()
        .expect("refused");
    assert_eq!(message(refused), "bad schema");
}

#[test]
fn text_bindings_and_bindings_without_a_schema_have_no_validator() {
    let mut s = spec();
    s.chat.response_format.mode = ResponseFormatMode::Text;
    let templated = accept(Ok(s))
        .ok()
        .expect("accepted")
        .with_templates(Ok("t"), &raw())
        .ok()
        .expect("templates");
    assert!(templated.output_schema.is_none());
    let engine = templated.into_engine("gem", Ok(Some("v")), (), ()).ok().expect("engine");
    assert!(engine.validator.is_none());
    assert!(engine.raw_output_schema.is_none());
    let templated = accepted()
        .with_templates(Ok("t"), &Json::parse_str("{}").unwrap())
        .ok()
        .expect("templates");
    assert!(templated.output_schema.is_none());
}

#[test]
fn arguments_are_read_from_the_payload() {
    match parse_arguments(b"").unwrap() {
        Json::Object(entries) => assert!(entries.is_empty()),
        other => panic!("no object: {:?}", other),
    }
    assert!(parse_arguments(b"{\"text\": \"hi\"}").unwrap().get("text").is_some());
    let error = message(parse_arguments(b"{").unwrap_err());
    assert!(error.starts_with("execute payload was not JSON: "));
    let error = message(read_arguments(b"x", Err("why".into())).unwrap_err());
    assert_eq!(error, "execute payload was not JSON: why");
    assert!(read_arguments(b"", Err("why".into())).is_ok());
}

#[test]
fn a_missing_profile_counts_before_a_bad_payload() {
    let mut plugin: GeminiChatPlugin<u8, ()> = GeminiChatPlugin::new();
    plugin.register("gem", 7);
    assert!(matches!(
        plugin.begin_call("none", b"{"),
        Err(BackendError::ProfileNotFound { .. })
    ));
    assert!(matches!(
        plugin.begin_call("gem", b"{"),
        Err(BackendError::InvalidSpec { .. })
    ));
    let (engine, arguments) = plugin.begin_call("gem", b"[1]").unwrap();
    assert_eq!(*engine, 7);
    assert_eq!(arguments.as_array().unwrap().len(), 1);
}

#[test]
fn results_are_handed_out_whole() {
    let reply = call_response(Ok(Ok(vec![1, 2]))).unwrap();
    assert_eq!(reply.payload, vec![1, 2]);
    assert!(!reply.truncated);
    match call_response(Ok(Err("why".into()))) {
        Err(BackendError::Transport { message }) => {
            assert_eq!(message, "serialize response: why")
        }
        other => panic!("another outcome: {:?}", other),
    }
    assert!(matches!(
        call_response(Err(BackendError::Timeout { timeout_ms: 9 })),
        Err(BackendError::Timeout { timeout_ms: 9 })
    ));
    assert_eq!(call_status(true), "ok");
    assert_eq!(call_status(false), "error");
}

#[test]
fn failures_are_copied_whole() {
    for error in [
        BackendError::ProfileNotFound {
            backend_name: "b".into(),
        },
        BackendError::InvalidSpec {
            message: "m".into(),
        },
        BackendError::Timeout { timeout_ms: 5 },
        BackendError::Transport {
            message: "t".into(),
        },
    ] {
        assert_eq!(
            format!("{:?}", clone_backend_error(&error)),
            format!("{:?}", error)
        );
    }
}

fn usage(input: u64, output: u64, cached: u64) -> Yielded {
    Yielded::Chunk(ChunkKind::Usage {
        input_tokens: input,
        output_tokens: output,
        cached_input_tokens: cached,
    })
}

#[test]
fn the_watch_adds_up_and_reports_once() {
    let mut watch = StreamWatch::new();
    assert!(matches!(watch.step(&usage(1, 2, 3)), WatchAction::Forward));
    assert!(matches!(
        watch.step(&Yielded::Chunk(ChunkKind::Other)),
        WatchAction::Forward
    ));
    assert!(matches!(watch.step(&usage(10, 20, 30)), WatchAction::Forward));
    assert!(!watch.is_terminated());
    match watch.step(&Yielded::Chunk(ChunkKind::Done)) {
        WatchAction::Report { failure, usage } => {
            assert!(failure.is_none());
            assert_eq!(
                usage,
                UsageSnapshot {
                    input_tokens: 11,
                    output_tokens: 22,
                    cached_input_tokens: 33,
                }
            );
        }
        other => panic!("no report: {:?}", other),
    }
    assert!(watch.is_terminated());
    assert!(matches!(
        watch.step(&Yielded::Chunk(ChunkKind::Done)),
        WatchAction::Stop
    ));
}

#[test]
fn the_watch_reports_failures_and_keeps_quiet_on_a_bare_end() {
    let mut watch = StreamWatch::new();
    watch.step(&usage(u64::MAX, 1, 0));
    watch.step(&usage(5, 1, 0));
    let failed = Yielded::Failed(BackendError::Transport {
        message: "503".into(),
    });
    match watch.step(&failed) {
        WatchAction::Report { failure, usage } => {
            assert!(matches!(failure, Some(BackendError::Transport { .. })));
            assert_eq!(usage.input_tokens, u64::MAX);
            assert_eq!(usage.output_tokens, 2);
        }
        other => panic!("no report: {:?}", other),
    }
    let mut watch = StreamWatch::new();
    assert!(matches!(watch.step(&Yielded::Ended), WatchAction::Stop));
    assert!(!watch.is_terminated());
}

#[test]
fn values_are_written_out_whole() {
    let value: serde_json::Value = serde_json::from_str("{\"b\": [1, -2, 0.5], \"a\": \"x\"}").unwrap();
    let reply = finish_call(Ok(value)).unwrap();
    assert_eq!(reply.payload, b"{\"a\":\"x\",\"b\":[1,-2,0.5]}".to_vec());
    assert!(!reply.truncated);
    assert!(matches!(
        finish_call(Err(BackendError::Timeout { timeout_ms: 9 })),
        Err(BackendError::Timeout { timeout_ms: 9 })
    ));
}

fn ended() -> EndedCall<'static> {
    EndedCall {
        backend_name: "gem",
        model: "m",
        request_id: "r1",
        alias: None,
        elapsed_nanos: 2_000_000,
        error_text: "boom",
        occurred_at: "2025-01-01T00:00:00.000Z",
    }
}

#[test]
fn an_ended_call_is_told_once_and_answered() {
    let (told, reply) = finish_execute(Some(&()), &ended(), None, Ok(serde_json::Value::Null));
    assert_eq!(reply.unwrap().payload, b"null".to_vec());
    let told = told.unwrap();
    assert_eq!(told.increments.len(), 1);
    assert_eq!(told.event.event_id, "llm-gemini-r1-2000000");
    assert_eq!(told.event.outcome, AuditOutcome::Success);
    assert!(told.event.details.get("input_tokens").is_none());

    let failure = BackendError::Transport {
        message: "503".into(),
    };
    let (told, reply) = finish_execute(Some(&()), &ended(), None, Err(failure));
    assert!(matches!(reply, Err(BackendError::Transport { message }) if message == "503"));
    let told = told.unwrap();
    assert_eq!(told.event.outcome, AuditOutcome::Failure);
    assert_eq!(
        told.event.details.get("error_class").unwrap().as_text(),
        Some("server_error")
    );
    let (told, reply) = finish_execute(None::<&()>, &ended(), None, Ok(serde_json::Value::Null));
    assert!(told.is_none());
    assert!(reply.is_ok());
}

#[test]
fn the_streaming_section_is_carried_unread() {
    let mut s = spec();
    s.chat.streaming.section = Json::parse_str("{\"x\": 1}");
    let engine = accept(Ok(s))
        .ok()
        .expect("accepted")
        .with_templates(Ok("t"), &raw())
        .ok()
        .expect("templates")
        .into_engine("gem", Ok(Some("v")), (), ())
        .ok()
        .expect("engine");
    assert!(engine.spec.streaming.section.unwrap().get("x").is_some());
}
