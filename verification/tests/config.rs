use mcpg_plugin_backend_llm_gemini::config::{
    ApiKeyRef, BudgetSpec, CacheSpec, ChatExecutionSpec, ConfigError, EmbeddingExecutionSpec,
    GuardrailsSpec, ImageExecutionSpec, OnMismatch, PromptSpec, ResponseFormatMode,
    ResponseFormatSpec, RetryClass, RetrySpec, SamplingSpec, StreamingSpec, ToolsSpec,
};
use mcpg_plugin_backend_llm_gemini::{GeminiChatSpec, GeminiEmbeddingSpec, GeminiImageSpec};

fn minimal() -> ChatExecutionSpec {
    ChatExecutionSpec {
        model: "gemini-1.5-pro".into(),
        timeout_ms: 30_000,
        connect_timeout_ms: 5_000,
        prompt: PromptSpec {
            system: "you are helpful".into(),
            user: "{{ input.text }}".into(),
            ..Default::default()
        },
        sampling: SamplingSpec::default(),
        response_format: ResponseFormatSpec::default(),
        tools: ToolsSpec::default(),
        streaming: StreamingSpec::default(),
        retry: RetrySpec::default(),
        guardrails: GuardrailsSpec::default(),
        cache: CacheSpec::default(),
        budget: BudgetSpec::default(),
    }
}

#[test]
fn default_base_url() {
    let s = GeminiChatSpec {
        base_url: None,
        api_key: ApiKeyRef::new("k"),
        chat: minimal(),
    };
    assert_eq!(
        s.resolved_base_url(),
        "https://generativelanguage.googleapis.com/v1beta"
    );
    s.validate().unwrap();
}

#[test]
fn embedding_default_base_url() {
    let s = GeminiEmbeddingSpec {
        base_url: None,
        api_key: ApiKeyRef::new("k"),
        embedding: EmbeddingExecutionSpec {
            model: "text-embedding-004".into(),
            ..Default::default()
        },
    };
    assert_eq!(
        s.resolved_base_url(),
        "https://generativelanguage.googleapis.com/v1beta"
    );
    s.validate().unwrap();
}

#[test]
fn image_default_base_url() {
    let mut s = GeminiImageSpec {
        base_url: None,
        api_key: ApiKeyRef::new("k"),
        image: ImageExecutionSpec::default(),
    };
    assert_eq!(s.resolved_base_url(), GeminiChatSpec::DEFAULT_BASE_URL);
    s.validate().unwrap();
    s.base_url = Some("http://localhost".into());
    assert_eq!(s.resolved_base_url(), "http://localhost");
    s.image.defaults.n = Some(1);
    s.validate().unwrap();
    s.image.defaults.n = Some(0);
    assert_eq!(s.validate().unwrap_err(), ConfigError::ZeroImages);
}

#[test]
fn keys_are_shown_redacted() {
    let key = ApiKeyRef::new("sesame");
    assert_eq!(key.redacted(), "***");
    assert_eq!(key.reveal_value(), "sesame");
}

#[test]
fn each_rule_of_a_chat_binding_is_enforced() {
    let mut c = minimal();
    c.prompt.system = " \n".into();
    assert_eq!(c.validate().unwrap_err(), ConfigError::EmptySystemPrompt);
    let mut c = minimal();
    c.prompt.user = "\u{3000}".into();
    assert_eq!(c.validate().unwrap_err(), ConfigError::EmptyUserPrompt);
    let mut c = minimal();
    c.tools.max_iterations = Some(50);
    c.validate().unwrap();
    c.tools.max_iterations = Some(51);
    assert_eq!(c.validate().unwrap_err(), ConfigError::TooManyIterations);
    let mut c = minimal();
    c.retry.initial_backoff_ms = 8000;
    c.validate().unwrap();
    c.retry.initial_backoff_ms = 8001;
    assert_eq!(c.validate().unwrap_err(), ConfigError::BackoffOrder);
    let mut c = minimal();
    c.cache.enabled = true;
    c.validate().unwrap();
    c.tools.allowed.push("x".into());
    assert_eq!(c.validate().unwrap_err(), ConfigError::CacheWithTools);
    let mut c = minimal();
    c.response_format.on_mismatch = OnMismatch::ReturnRaw;
    assert_eq!(c.validate().unwrap_err(), ConfigError::RawOutsideText);
    c.response_format.mode = ResponseFormatMode::Text;
    c.validate().unwrap();
    assert_eq!(
        ConfigError::TooManyIterations.text(),
        "tools.max_iterations must not exceed 50"
    );
}

#[test]
fn defaults_are_those_of_the_documentation() {
    let retry = RetrySpec::default();
    assert_eq!(retry.max_attempts, 3);
    assert_eq!(retry.initial_backoff_ms, 500);
    assert_eq!(retry.max_backoff_ms, 8000);
    assert_eq!(
        retry.retry_on,
        vec![RetryClass::RateLimited, RetryClass::Server, RetryClass::Network]
    );
    let e = EmbeddingExecutionSpec::default();
    assert_eq!(e.timeout_ms, 10000);
    assert_eq!(e.retry.initial_backoff_ms, 200);
    assert_eq!(e.cache.ttl_seconds, 86400);
    let i = ImageExecutionSpec::default();
    assert_eq!(i.timeout_ms, 60000);
    assert_eq!(i.retry.max_backoff_ms, 2000);
    assert_eq!(ToolsSpec::default().tool_result_max_bytes, 16384);
    assert!(ResponseFormatSpec::default().strict);
    assert_eq!(BudgetSpec::default().tokens_per_call_cap, 0);
}
