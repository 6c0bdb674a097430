//! Operator-facing configuration of the three bindings.

use crate::json::Json;
use crate::normalized::{Float, ToolChoiceWire};
use crate::text::{blank, is_blank};
use vstd::prelude::*;

verus! {

/// The key of the provider, after the gateway has put in its literal value. It
/// is deliberately not printable.
pub struct ApiKeyRef {
    value: String,
}

impl View for ApiKeyRef {
    type V = Seq<char>;

    closed spec fn view(&self) -> Seq<char> {
        self.value@
    }
}

impl ApiKeyRef {
    /// The key with a literal value.
    pub fn new(value: &str) -> (key: ApiKeyRef)
        ensures
            key@ == value@,
    {
        ApiKeyRef { value: value.to_owned() }
    }

    /// The literal value.
    pub fn reveal_value(&self) -> (value: &str)
        ensures
            value@ == self@,
    {
        self.value.as_str()
    }

    /// How a key is shown.
    pub fn redacted(&self) -> (shown: &'static str)
        ensures
            shown@ == "***"@,
    {
        "***"
    }
}

/// The templates of a chat binding, and the arguments that carry content.
#[derive(Debug)]
pub struct PromptSpec {
    pub system: String,
    pub user: String,
    pub image_inputs: Vec<String>,
    pub audio_inputs: Vec<String>,
    pub file_inputs: Vec<String>,
}

/// Sampling parameters; one that is not set is not sent.
#[derive(Debug)]
pub struct SamplingSpec {
    pub temperature: Option<Float>,
    pub top_p: Option<Float>,
    pub max_completion_tokens: Option<u32>,
    pub seed: Option<i64>,
}

/// What a reply has to be.
#[derive(Clone, Copy, Debug, PartialEq, Eq, Structural)]
pub enum ResponseFormatMode {
    JsonSchema,
    Text,
}

/// What happens to a reply that is not what it has to be.
#[derive(Clone, Copy, Debug, PartialEq, Eq, Structural)]
pub enum OnMismatch {
    Error,
    RetryOnce,
    ReturnRaw,
}

/// The format of replies.
#[derive(Debug)]
pub struct ResponseFormatSpec {
    pub mode: ResponseFormatMode,
    pub strict: bool,
    pub on_mismatch: OnMismatch,
}

/// What happens when the loop over tool calls runs out of iterations.
#[derive(Clone, Copy, Debug, PartialEq, Eq, Structural)]
pub enum OnIterationExhausted {
    Error,
    ReturnPartial,
}

/// The tools that the model may call.
#[derive(Debug)]
pub struct ToolsSpec {
    pub allowed: Vec<String>,
    pub max_iterations: Option<u32>,
    pub tool_choice: ToolChoiceWire,
    pub tool_result_max_bytes: u64,
    pub on_iteration_exhausted: OnIterationExhausted,
}

/// A class of failures that may be worth another try.
#[derive(Clone, Copy, Debug, PartialEq, Eq, Structural)]
pub enum RetryClass {
    RateLimited,
    Server,
    Network,
}

/// How often, after which waits and on what to try again.
#[derive(Debug)]
pub struct RetrySpec {
    pub max_attempts: u32,
    pub initial_backoff_ms: u64,
    pub max_backoff_ms: u64,
    pub retry_on: Vec<RetryClass>,
}

/// Hard limits.
#[derive(Debug)]
pub struct GuardrailsSpec {
    pub max_output_tokens_per_iteration: Option<u32>,
}

/// The cache of replies.
#[derive(Debug)]
pub struct CacheSpec {
    pub enabled: bool,
    pub ttl_seconds: u64,
}

/// Spending caps; zero is no cap.
#[derive(Debug)]
pub struct BudgetSpec {
    pub tokens_per_call_cap: u64,
    pub usd_daily_cap: Float,
}

impl Default for PromptSpec {
    fn default() -> (spec: PromptSpec)
        ensures
            spec.system@.len() == 0,
            spec.user@.len() == 0,
            spec.image_inputs@.len() == 0,
            spec.audio_inputs@.len() == 0,
            spec.file_inputs@.len() == 0,
    {
        PromptSpec {
            system: String::new(),
            user: String::new(),
            image_inputs: Vec::new(),
            audio_inputs: Vec::new(),
            file_inputs: Vec::new(),
        }
    }
}

impl Default for SamplingSpec {
    fn default() -> (spec: SamplingSpec)
        ensures
            spec == (SamplingSpec {
                temperature: None,
                top_p: None,
                max_completion_tokens: None,
                seed: None,
            }),
    {
        SamplingSpec { temperature: None, top_p: None, max_completion_tokens: None, seed: None }
    }
}

impl Default for ResponseFormatSpec {
    fn default() -> (spec: ResponseFormatSpec)
        ensures
            spec == (ResponseFormatSpec {
                mode: ResponseFormatMode::JsonSchema,
                strict: true,
                on_mismatch: OnMismatch::Error,
            }),
    {
        ResponseFormatSpec {
            mode: ResponseFormatMode::JsonSchema,
            strict: true,
            on_mismatch: OnMismatch::Error,
        }
    }
}

impl Default for ToolsSpec {
    fn default() -> (spec: ToolsSpec)
        ensures
            spec.allowed@.len() == 0,
            spec.max_iterations is None,
            spec.tool_choice == ToolChoiceWire::Auto,
            spec.tool_result_max_bytes == 16384,
            spec.on_iteration_exhausted == OnIterationExhausted::Error,
    {
        ToolsSpec {
            allowed: Vec::new(),
            max_iterations: None,
            tool_choice: ToolChoiceWire::Auto,
            tool_result_max_bytes: 16384,
            on_iteration_exhausted: OnIterationExhausted::Error,
        }
    }
}

/// Every class of failures that may be worth another try.
fn every_class() -> (classes: Vec<RetryClass>)
    ensures
        classes@ == seq![RetryClass::RateLimited, RetryClass::Server, RetryClass::Network],
{
    let mut classes: Vec<RetryClass> = Vec::new();
    classes.push(RetryClass::RateLimited);
    classes.push(RetryClass::Server);
    classes.push(RetryClass::Network);
    classes
}

/// Tries thrice, on whatever may be worth another try, after the waits given.
pub open spec fn retries_thrice(spec: RetrySpec, initial_ms: u64, max_ms: u64) -> bool {
    &&& spec.max_attempts == 3
    &&& spec.initial_backoff_ms == initial_ms
    &&& spec.max_backoff_ms == max_ms
    &&& spec.retry_on@ == seq![RetryClass::RateLimited, RetryClass::Server, RetryClass::Network]
}

impl Default for RetrySpec {
    fn default() -> (spec: RetrySpec)
        ensures
            retries_thrice(spec, 500, 8000),
    {
        RetrySpec {
            max_attempts: 3,
            initial_backoff_ms: 500,
            max_backoff_ms: 8000,
            retry_on: every_class(),
        }
    }
}

impl Default for GuardrailsSpec {
    fn default() -> (spec: GuardrailsSpec)
        ensures
            spec.max_output_tokens_per_iteration is None,
    {
        GuardrailsSpec { max_output_tokens_per_iteration: None }
    }
}

impl Default for CacheSpec {
    fn default() -> (spec: CacheSpec)
        ensures
            spec == (CacheSpec { enabled: false, ttl_seconds: 3600000 }),
    {
        CacheSpec { enabled: false, ttl_seconds: 3600000 }
    }
}

impl Default for BudgetSpec {
    fn default() -> (spec: BudgetSpec)
        ensures
            spec == (BudgetSpec { tokens_per_call_cap: 0, usd_daily_cap: (Float { bits: 0 }) }),
    {
        BudgetSpec { tokens_per_call_cap: 0, usd_daily_cap: Float { bits: 0 } }
    }
}

/// The `streaming` section of a chat binding, as it was written. It is handed to
/// the engine unread.
#[derive(Debug)]
pub struct StreamingSpec {
    pub section: Option<Json>,
}

impl Default for StreamingSpec {
    fn default() -> (spec: StreamingSpec)
        ensures
            spec.section is None,
    {
        StreamingSpec { section: None }
    }
}

/// How a chat binding executes.
#[derive(Debug)]
pub struct ChatExecutionSpec {
    pub model: String,
    pub timeout_ms: u64,
    pub connect_timeout_ms: u64,
    pub prompt: PromptSpec,
    pub sampling: SamplingSpec,
    pub response_format: ResponseFormatSpec,
    pub tools: ToolsSpec,
    pub streaming: StreamingSpec,
    pub retry: RetrySpec,
    pub guardrails: GuardrailsSpec,
    pub cache: CacheSpec,
    pub budget: BudgetSpec,
}

/// How an embedding binding executes.
#[derive(Debug)]
pub struct EmbeddingExecutionSpec {
    pub model: String,
    pub dimensions: Option<u32>,
    pub max_batch_size: Option<u32>,
    pub timeout_ms: u64,
    pub connect_timeout_ms: u64,
    pub retry: RetrySpec,
    pub cache: CacheSpec,
}

impl Default for EmbeddingExecutionSpec {
    fn default() -> (spec: EmbeddingExecutionSpec)
        ensures
            spec.model@.len() == 0,
            spec.dimensions is None,
            spec.max_batch_size is None,
            spec.timeout_ms == 10000,
            spec.connect_timeout_ms == 5000,
            retries_thrice(spec.retry, 200, 2000),
            spec.cache == (CacheSpec { enabled: false, ttl_seconds: 86400 }),
    {
        EmbeddingExecutionSpec {
            model: String::new(),
            dimensions: None,
            max_batch_size: None,
            timeout_ms: 10000,
            connect_timeout_ms: 5000,
            retry: RetrySpec {
                max_attempts: 3,
                initial_backoff_ms: 200,
                max_backoff_ms: 2000,
                retry_on: every_class(),
            },
            cache: CacheSpec { enabled: false, ttl_seconds: 86400 },
        }
    }
}

/// What an image binding asks for where a call does not say.
#[derive(Debug)]
pub struct ImageDefaults {
    pub size: Option<String>,
    pub n: Option<u32>,
    pub negative_prompt: Option<String>,
    pub quality: Option<String>,
    pub style: Option<String>,
    pub output_format: Option<String>,
}

/// How an image binding executes.
#[derive(Debug)]
pub struct ImageExecutionSpec {
    pub model: String,
    pub timeout_ms: u64,
    pub connect_timeout_ms: u64,
    pub defaults: ImageDefaults,
    pub retry: RetrySpec,
}

impl Default for ImageExecutionSpec {
    fn default() -> (spec: ImageExecutionSpec)
        ensures
            spec.model@.len() == 0,
            spec.timeout_ms == 60000,
            spec.connect_timeout_ms == 5000,
            spec.defaults == (ImageDefaults {
                size: None,
                n: None,
                negative_prompt: None,
                quality: None,
                style: None,
                output_format: None,
            }),
            retries_thrice(spec.retry, 200, 2000),
    {
        ImageExecutionSpec {
            model: String::new(),
            timeout_ms: 60000,
            connect_timeout_ms: 5000,
            defaults: ImageDefaults {
                size: None,
                n: None,
                negative_prompt: None,
                quality: None,
                style: None,
                output_format: None,
            },
            retry: RetrySpec {
                max_attempts: 3,
                initial_backoff_ms: 200,
                max_backoff_ms: 2000,
                retry_on: every_class(),
            },
        }
    }
}

/// Why a configuration is refused.
#[derive(Clone, Copy, Debug, PartialEq, Eq, Structural)]
pub enum ConfigError {
    EmptySystemPrompt,
    EmptyUserPrompt,
    TooManyIterations,
    BackoffOrder,
    CacheWithTools,
    RawOutsideText,
    ZeroImages,
}

impl ConfigError {
    /// What the refusal says.
    pub open spec fn message(self) -> Seq<char> {
        match self {
            ConfigError::EmptySystemPrompt => "prompt.system must not be empty"@,
            ConfigError::EmptyUserPrompt => "prompt.user must not be empty"@,
            ConfigError::TooManyIterations => "tools.max_iterations must not exceed 50"@,
            ConfigError::BackoffOrder => {
                "retry.initial_backoff_ms must not exceed retry.max_backoff_ms"@
            },
            ConfigError::CacheWithTools => {
                "cache.enabled cannot be combined with tools.allowed"@
            },
            ConfigError::RawOutsideText => {
                "response_format.on_mismatch: return_raw requires mode: text"@
            },
            ConfigError::ZeroImages => "defaults.n must be at least 1"@,
        }
    }

    /// What the refusal says.
    pub fn text(self) -> (text: &'static str)
        ensures
            text@ == self.message(),
    {
        match self {
            ConfigError::EmptySystemPrompt => "prompt.system must not be empty",
            ConfigError::EmptyUserPrompt => "prompt.user must not be empty",
            ConfigError::TooManyIterations => "tools.max_iterations must not exceed 50",
            ConfigError::BackoffOrder => {
                "retry.initial_backoff_ms must not exceed retry.max_backoff_ms"
            },
            ConfigError::CacheWithTools => {
                "cache.enabled cannot be combined with tools.allowed"
            },
            ConfigError::RawOutsideText => {
                "response_format.on_mismatch: return_raw requires mode: text"
            },
            ConfigError::ZeroImages => "defaults.n must be at least 1",
        }
    }
}

/// How many round-trips to the model a call may take at most.
pub const MAX_ITERATIONS: u32 = 50;

/// The first rule that a chat configuration breaks, where it breaks one.
pub open spec fn chat_fault(spec: ChatExecutionSpec) -> Option<ConfigError> {
    if is_blank(spec.prompt.system@) {
        Some(ConfigError::EmptySystemPrompt)
    } else if is_blank(spec.prompt.user@) {
        Some(ConfigError::EmptyUserPrompt)
    } else if spec.tools.max_iterations matches Some(n) && n > MAX_ITERATIONS {
        Some(ConfigError::TooManyIterations)
    } else if spec.retry.initial_backoff_ms > spec.retry.max_backoff_ms {
        Some(ConfigError::BackoffOrder)
    } else if spec.cache.enabled && spec.tools.allowed@.len() > 0 {
        Some(ConfigError::CacheWithTools)
    } else if spec.response_format.on_mismatch == OnMismatch::ReturnRaw
        && spec.response_format.mode != ResponseFormatMode::Text {
        Some(ConfigError::RawOutsideText)
    } else {
        None
    }
}

impl ChatExecutionSpec {
    /// Accepts a configuration, or names the first rule that it breaks.
    pub fn validate(&self) -> (verdict: Result<(), ConfigError>)
        ensures
            match verdict {
                Ok(_) => chat_fault(*self) is None,
                Err(fault) => chat_fault(*self) == Some(fault),
            },
    {
        if blank(self.prompt.system.as_str()) {
            return Err(ConfigError::EmptySystemPrompt);
        }
        if blank(self.prompt.user.as_str()) {
            return Err(ConfigError::EmptyUserPrompt);
        }
        if let Some(n) = self.tools.max_iterations {
            if n > MAX_ITERATIONS {
                return Err(ConfigError::TooManyIterations);
            }
        }
        if self.retry.initial_backoff_ms > self.retry.max_backoff_ms {
            return Err(ConfigError::BackoffOrder);
        }
        if self.cache.enabled && self.tools.allowed.len() > 0 {
            return Err(ConfigError::CacheWithTools);
        }
        if self.response_format.on_mismatch == OnMismatch::ReturnRaw && self.response_format.mode
            != ResponseFormatMode::Text {
            return Err(ConfigError::RawOutsideText);
        }
        Ok(())
    }
}

/// The first rule that an image configuration breaks, where it breaks one.
pub open spec fn image_fault(spec: ImageExecutionSpec) -> Option<ConfigError> {
    if spec.defaults.n == Some(0u32) {
        Some(ConfigError::ZeroImages)
    } else {
        None
    }
}

impl ImageExecutionSpec {
    /// Accepts a configuration, or names the first rule that it breaks.
    pub fn validate(&self) -> (verdict: Result<(), ConfigError>)
        ensures
            match verdict {
                Ok(_) => image_fault(*self) is None,
                Err(fault) => image_fault(*self) == Some(fault),
            },
    {
        match self.defaults.n {
            Some(n) => if n == 0 {
                Err(ConfigError::ZeroImages)
            } else {
                Ok(())
            },
            None => Ok(()),
        }
    }
}

/// The base URL that is set, or else that of Google AI Studio.
pub open spec fn base_url_or_default(base_url: Option<String>) -> Seq<char> {
    match base_url {
        Some(url) => url@,
        None => GeminiChatSpec::DEFAULT_BASE_URL@,
    }
}

/// The base URL that is set, or else that of Google AI Studio.
fn resolve_base_url(base_url: &Option<String>) -> (url: &str)
    ensures
        url@ == base_url_or_default(*base_url),
{
    match base_url {
        Some(url) => url.as_str(),
        None => GeminiChatSpec::DEFAULT_BASE_URL,
    }
}

/// The configuration of a `gemini_chat` binding. Vertex AI has another URL and
/// another way to authenticate; it is reached through its OpenAI-compatible
/// endpoint instead.
pub struct GeminiChatSpec {
    pub base_url: Option<String>,
    pub api_key: ApiKeyRef,
    pub chat: ChatExecutionSpec,
}

impl GeminiChatSpec {
    /// The base URL of Google AI Studio.
    pub const DEFAULT_BASE_URL: &'static str = "https://generativelanguage.googleapis.com/v1beta";

    /// Accepts a configuration, or names the first rule that it breaks.
    pub fn validate(&self) -> (verdict: Result<(), ConfigError>)
        ensures
            match verdict {
                Ok(_) => chat_fault(self.chat) is None,
                Err(fault) => chat_fault(self.chat) == Some(fault),
            },
    {
        self.chat.validate()
    }

    /// The base URL that is set, or else that of Google AI Studio.
    pub fn resolved_base_url(&self) -> (url: &str)
        ensures
            url@ == base_url_or_default(self.base_url),
    {
        resolve_base_url(&self.base_url)
    }
}

/// The configuration of a `gemini_embedding` binding.
pub struct GeminiEmbeddingSpec {
    pub base_url: Option<String>,
    pub api_key: ApiKeyRef,
    pub embedding: EmbeddingExecutionSpec,
}

impl GeminiEmbeddingSpec {
    /// Accepts a configuration. None is refused: a batch size beyond what the
    /// provider takes is clamped later.
    pub fn validate(&self) -> (verdict: Result<(), ConfigError>)
        ensures
            verdict is Ok,
    {
        Ok(())
    }

    /// The base URL that is set, or else that of Google AI Studio.
    pub fn resolved_base_url(&self) -> (url: &str)
        ensures
            url@ == base_url_or_default(self.base_url),
    {
        resolve_base_url(&self.base_url)
    }
}

/// The configuration of a `gemini_image` binding.
pub struct GeminiImageSpec {
    pub base_url: Option<String>,
    pub api_key: ApiKeyRef,
    pub image: ImageExecutionSpec,
}

impl GeminiImageSpec {
    /// Accepts a configuration, or names the first rule that it breaks.
    pub fn validate(&self) -> (verdict: Result<(), ConfigError>)
        ensures
            match verdict {
                Ok(_) => image_fault(self.image) is None,
                Err(fault) => image_fault(self.image) == Some(fault),
            },
    {
        self.image.validate()
    }

    /// The base URL that is set, or else that of Google AI Studio.
    pub fn resolved_base_url(&self) -> (url: &str)
        ensures
            url@ == base_url_or_default(self.base_url),
    {
        resolve_base_url(&self.base_url)
    }
}

} // verus!
