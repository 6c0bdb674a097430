use mcpg_plugin_backend_llm_gemini::backend::{AuditOutcome, BackendError, PluginIdentity};
use mcpg_plugin_backend_llm_gemini::host_handle_obs::{
    audit_action_for_outcome, chat_observability, open_span, open_streaming_span, outcome_label,
    synthetic_system_identity, transport_message_label, CallRecord, Increment, UsageSnapshot,
};
use mcpg_plugin_backend_llm_gemini::json::{Json, Number};
use serde_json::Value;

fn value(json: &Json) -> Value {
    match json {
        Json::Null => Value::Null,
        Json::Bool(b) => Value::Bool(*b),
        Json::Number(Number::PosInt(n)) => Value::from(*n),
        Json::Number(Number::NegInt(n)) => Value::from(*n),
        Json::Number(Number::Float(bits)) => Value::from(f64::from_bits(*bits)),
        Json::Text(s) => Value::from(s.as_str()),
        Json::Array(items) => Value::Array(items.iter().map(value).collect()),
        Json::Object(entries) => Value::Object(
            entries
                .iter()
                .map(|(key, item)| (key.clone(), value(item)))
                .collect(),
        ),
    }
}

fn record<'a>(result: Result<(), &'a BackendError>) -> CallRecord<'a> {
    CallRecord {
        backend_name: "gem",
        model: "gemini-1.5-pro",
        request_id: "r1",
        alias: None,
        elapsed_nanos: 1_234_567_890,
        result,
        error_text: "boom",
        usage: None,
        cost_usd_micros: None,
        occurred_at: "2025-01-01T00:00:00.000Z",
    }
}

fn shown(increment: &Increment) -> (String, u64, Vec<(String, String)>) {
    (
        increment.metric.to_string(),
        increment.amount,
        increment
            .labels
            .iter()
            .map(|(name, text)| (name.to_string(), text.clone()))
            .collect(),
    )
}

#[test]
fn transport_messages_are_classified_in_order() {
    for (message, label) in [
        ("HTTP 429 and 500", "rate_limited"),
        ("Rate Limit hit", "rate_limited"),
        ("rate_limit", "rate_limited"),
        ("RESOURCE_EXHAUSTED", "rate_limited"),
        ("status 401", "auth_failed"),
        ("status 403", "auth_failed"),
        ("OAuth problem", "auth_failed"),
        ("Forbidden", "auth_failed"),
        ("PERMISSION_DENIED", "auth_failed"),
        ("404", "model_not_found"),
        ("Model not found", "model_not_found"),
        ("it does not exist", "model_not_found"),
        ("NOT_FOUND", "model_not_found"),
        ("500", "server_error"),
        ("502", "server_error"),
        ("503", "server_error"),
        ("504", "server_error"),
        ("Server Error", "server_error"),
        ("Unavailable", "server_error"),
        ("internal", "server_error"),
        ("400", "client_error"),
        ("Invalid value", "client_error"),
        ("timed out", "timeout"),
        ("Timeout", "timeout"),
        ("connection reset", "transport"),
        ("", "transport"),
    ] {
        assert_eq!(transport_message_label(message), label, "{}", message);
    }
}

#[test]
fn outcomes_have_their_labels_and_actions() {
    assert_eq!(outcome_label(Ok(())), "ok");
    let missing = BackendError::ProfileNotFound {
        backend_name: "x".into(),
    };
    assert_eq!(outcome_label(Err(&missing)), "model_not_found");
    assert_eq!(
        outcome_label(Err(&BackendError::Timeout { timeout_ms: 3 })),
        "timeout"
    );
    let invalid = BackendError::InvalidSpec {
        message: "429".into(),
    };
    assert_eq!(outcome_label(Err(&invalid)), "client_error");
    let transport = BackendError::Transport {
        message: "429".into(),
    };
    assert_eq!(outcome_label(Err(&transport)), "rate_limited");
    assert_eq!(audit_action_for_outcome("ok"), "dev.mcpg.llm.gemini.completion");
    assert_eq!(audit_action_for_outcome("okay"), "dev.mcpg.llm.gemini.failure");
    assert_eq!(audit_action_for_outcome("timeout"), "dev.mcpg.llm.gemini.failure");
}

#[test]
fn spans_are_opened_where_a_host_is_installed() {
    let span = open_span(Some(&()), "gem", "m").unwrap();
    assert_eq!(span.name, "llm_gemini.execute");
    assert_eq!(value(&span.attributes)["binding"], "gem");
    assert_eq!(value(&span.attributes)["model"], "m");
    let span = open_streaming_span(Some(&()), "gem", "m").unwrap();
    assert_eq!(span.name, "llm_gemini.execute_streaming");
    assert!(open_span(None::<&()>, "gem", "m").is_none());
    assert!(open_streaming_span(None::<&()>, "gem", "m").is_none());
}

#[test]
fn a_call_without_usage_is_counted_and_audited() {
    let told = chat_observability(Some(&()), &record(Ok(())), None).unwrap();
    assert_eq!(told.latency_metric, "mcpg_llm_gemini_latency_seconds");
    assert_eq!(told.latency_labels[0], ("outcome", "ok".to_string()));
    assert_eq!(told.latency_labels[1], ("model", "gemini-1.5-pro".to_string()));
    assert_eq!(told.increments.len(), 1);
    let (metric, amount, labels) = shown(&told.increments[0]);
    assert_eq!(metric, "mcpg_llm_gemini_calls_total");
    assert_eq!(amount, 1);
    assert_eq!(labels[0], ("outcome".to_string(), "ok".to_string()));
    let event = &told.event;
    assert_eq!(event.event_id, "llm-gemini-r1-1234567890");
    assert_eq!(event.occurred_at, "2025-01-01T00:00:00.000Z");
    assert_eq!(event.action, "dev.mcpg.llm.gemini.completion");
    assert_eq!(event.resource.as_deref(), Some("llm-binding://gemini/gem"));
    assert_eq!(event.outcome, AuditOutcome::Success);
    assert_eq!(event.request_id.as_deref(), Some("r1"));
    assert!(event.upstream_request_id.is_none());
    assert!(event.node_id.is_none());
    assert!(event.prev_event_hash.is_none());
    assert_eq!(event.actor.kind, "system");
    assert_eq!(
        event.actor.subject_id.as_deref(),
        Some("dev.mcpg.backend.gemini.chat")
    );
    let details = value(&event.details);
    assert_eq!(
        details.to_string(),
        "{\"alias\":null,\"binding\":\"gem\",\"duration_ms\":1234,\"model\":\"gemini-1.5-pro\",\"outcome\":\"ok\",\"provider\":\"gemini\"}"
    );
}

#[test]
fn usage_and_cost_are_counted_where_known() {
    let mut r = record(Ok(()));
    r.alias = Some("g2");
    r.usage = Some(UsageSnapshot {
        input_tokens: 10,
        output_tokens: 5,
        cached_input_tokens: 2,
    });
    r.cost_usd_micros = Some(77);
    let told = chat_observability(Some(&()), &r, None).unwrap();
    let all: Vec<(String, u64)> = told
        .increments
        .iter()
        .map(|i| (i.metric.to_string(), i.amount))
        .collect();
    assert_eq!(
        all,
        vec![
            ("mcpg_llm_gemini_calls_total".to_string(), 1),
            ("mcpg_llm_gemini_input_tokens_total".to_string(), 10),
            ("mcpg_llm_gemini_output_tokens_total".to_string(), 5),
            ("mcpg_llm_gemini_cost_usd_micros_total".to_string(), 77),
        ]
    );
    assert_eq!(
        shown(&told.increments[3]).2,
        vec![("model".to_string(), "gemini-1.5-pro".to_string())]
    );
    let details = value(&told.event.details);
    assert_eq!(details["alias"], "g2");
    assert_eq!(details["input_tokens"], 10);
    assert_eq!(details["output_tokens"], 5);
    assert_eq!(details["total_tokens"], 15);
    assert_eq!(details["cached_input_tokens"], 2);
    assert_eq!(details["cost_usd_micros"], 77);
    assert!(details.get("error_class").is_none());
}

#[test]
fn what_is_not_known_is_not_told() {
    let mut r = record(Ok(()));
    r.usage = Some(UsageSnapshot::default());
    let told = chat_observability(Some(&()), &r, None).unwrap();
    assert_eq!(told.increments.len(), 3);
    let details = value(&told.event.details);
    assert_eq!(details["total_tokens"], 0);
    assert!(details.get("cached_input_tokens").is_none());
    assert!(details.get("cost_usd_micros").is_none());
    r.usage = None;
    r.cost_usd_micros = Some(5);
    let told = chat_observability(Some(&()), &r, None).unwrap();
    assert_eq!(told.increments.len(), 1);
    assert!(chat_observability(None::<&()>, &r, None).is_none());
}

#[test]
fn failures_are_told_with_their_class() {
    let error = BackendError::Transport {
        message: "503".into(),
    };
    let identity = PluginIdentity {
        kind: "user".into(),
        ..synthetic_system_identity()
    };
    let told = chat_observability(Some(&()), &record(Err(&error)), Some(identity)).unwrap();
    assert_eq!(told.event.actor.kind, "user");
    assert_eq!(told.event.action, "dev.mcpg.llm.gemini.failure");
    assert_eq!(told.event.outcome, AuditOutcome::Failure);
    let details = value(&told.event.details);
    assert_eq!(details["outcome"], "server_error");
    assert_eq!(details["error_class"], "server_error");
    assert_eq!(details["error_message"], "boom");
}

#[test]
fn durations_are_kept_to_their_low_bits() {
    let mut r = record(Ok(()));
    r.elapsed_nanos = (1u128 << 64) * 1_000_000 + 7_999_999;
    let told = chat_observability(Some(&()), &r, None).unwrap();
    assert_eq!(value(&told.event.details)["duration_ms"], 7);
}

#[test]
fn the_rate_card_is_asked_about_clamped_counts() {
    let usage = UsageSnapshot {
        input_tokens: u64::MAX,
        output_tokens: 4294967295,
        cached_input_tokens: 3,
    }
    .usage_for_cost();
    assert_eq!(usage.input_tokens, u32::MAX);
    assert_eq!(usage.output_tokens, u32::MAX);
    assert_eq!(usage.cached_input_tokens, 3);
}
