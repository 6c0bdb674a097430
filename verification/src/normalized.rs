//! The gateway's provider-neutral requests and replies, and the failures that
//! a provider can report.

use crate::json::{Json, Number, Tree};
use vstd::prelude::*;

verus! {

// ---------------------------------------------------------------------------
// Numbers
// ---------------------------------------------------------------------------

/// A double-precision number, by its IEEE-754 bits.
#[derive(Clone, Copy, Debug, PartialEq, Eq, Structural)]
pub struct Float {
    pub bits: u64,
}

impl Float {
    /// Neither an infinity nor a NaN: not every bit of the exponent is set.
    pub open spec fn finite(self) -> bool {
        (self.bits / 0x10_0000_0000_0000) % 0x800 != 0x7ff
    }

    /// The document that stands for this number: JSON has no infinities and no
    /// NaN, so these become `null`.
    pub open spec fn tree(self) -> Tree {
        if self.finite() {
            Tree::Number(Number::Float(self.bits))
        } else {
            Tree::Null
        }
    }

    /// The document that stands for this number.
    pub fn to_json(self) -> (json: Json)
        ensures
            json@ == self.tree(),
    {
        if (self.bits / 0x10_0000_0000_0000) % 0x800 != 0x7ff {
            Json::Number(Number::Float(self.bits))
        } else {
            Json::Null
        }
    }
}

/// The JSON number of an integer.
pub open spec fn integer_number(n: i64) -> Number {
    if n < 0 {
        Number::NegInt(n)
    } else {
        Number::PosInt(n as u64)
    }
}

/// The JSON number of an integer.
pub fn integer_json(n: i64) -> (json: Json)
    ensures
        json@ == Tree::Number(integer_number(n)),
{
    if n < 0 {
        Json::Number(Number::NegInt(n))
    } else {
        Json::Number(Number::PosInt(n as u64))
    }
}

// ---------------------------------------------------------------------------
// Messages
// ---------------------------------------------------------------------------

/// Who speaks in a message.
#[derive(Clone, Copy, Debug, PartialEq, Eq, Structural)]
pub enum Role {
    System,
    User,
    Assistant,
    Tool,
}

/// Where an image comes from.
#[derive(Debug)]
pub enum ImageSource {
    Url(String),
    Base64 { mime_type: String, data: String },
    McpResource(String),
}

/// An image in a user message.
#[derive(Debug)]
pub struct ImageContent {
    pub source: ImageSource,
    pub detail: Option<String>,
}

/// Where a sound recording comes from.
#[derive(Debug)]
pub enum AudioSource {
    Url(String),
    Base64 { data: String },
    McpResource(String),
}

/// The format of a sound recording. A format other than WAV is given by its
/// MIME type.
#[derive(Debug)]
pub enum AudioFormat {
    Wav,
    Other { mime_type: String },
}

impl AudioFormat {
    /// The MIME type of the format.
    pub open spec fn mime(self) -> Seq<char> {
        match self {
            AudioFormat::Wav => "audio/wav"@,
            AudioFormat::Other { mime_type } => mime_type@,
        }
    }

    /// The MIME type of the format.
    pub fn mime_type(&self) -> (mime: &str)
        ensures
            mime@ == self.mime(),
    {
        match self {
            AudioFormat::Wav => "audio/wav",
            AudioFormat::Other { mime_type } => mime_type.as_str(),
        }
    }
}

/// A sound recording in a user message.
#[derive(Debug)]
pub struct AudioContent {
    pub source: AudioSource,
    pub format: AudioFormat,
}

/// Where a file comes from.
#[derive(Debug)]
pub enum FileSource {
    Url(String),
    Base64 { data: String },
    McpResource(String),
}

/// A file in a user message.
#[derive(Debug)]
pub struct FileContent {
    pub source: FileSource,
    pub mime_type: String,
    pub filename: Option<String>,
}

/// One part of a message made of parts.
#[derive(Debug)]
pub enum ContentPart {
    Text(String),
    Image(ImageContent),
    Audio(AudioContent),
    File(FileContent),
}

/// What a message says: a text, or parts together with the text that stands
/// for them where only text can go.
#[derive(Debug)]
pub enum MessageContent {
    Text(String),
    Parts { parts: Vec<ContentPart>, text: String },
}

impl MessageContent {
    /// The content as text.
    pub open spec fn text(self) -> Seq<char> {
        match self {
            MessageContent::Text(s) => s@,
            MessageContent::Parts { parts, text } => text@,
        }
    }

    /// The content as text.
    pub fn as_text(&self) -> (text: &str)
        ensures
            text@ == self.text(),
    {
        match self {
            MessageContent::Text(s) => s.as_str(),
            MessageContent::Parts { parts, text } => text.as_str(),
        }
    }
}

/// A call of a tool that the model asks for.
#[derive(Debug)]
pub struct ToolCall {
    pub id: String,
    pub name: String,
    pub arguments: Json,
}

/// What a tool call says.
pub struct ToolCallView {
    pub id: Seq<char>,
    pub name: Seq<char>,
    pub arguments: Tree,
}

impl View for ToolCall {
    type V = ToolCallView;

    open spec fn view(&self) -> ToolCallView {
        ToolCallView { id: self.id@, name: self.name@, arguments: self.arguments@ }
    }
}

/// One message of a conversation.
#[derive(Debug)]
pub struct Message {
    pub role: Role,
    pub content: MessageContent,
    pub tool_calls: Vec<ToolCall>,
    pub tool_call_id: Option<String>,
}

impl Message {
    /// A system message.
    pub fn system(text: &str) -> (message: Message)
        ensures
            message.role == Role::System,
            message.content matches MessageContent::Text(s) && s@ == text@,
            message.tool_calls@.len() == 0,
            message.tool_call_id is None,
    {
        Message {
            role: Role::System,
            content: MessageContent::Text(text.to_owned()),
            tool_calls: Vec::new(),
            tool_call_id: None,
        }
    }

    /// A user message of plain text.
    pub fn user(text: &str) -> (message: Message)
        ensures
            message.role == Role::User,
            message.content matches MessageContent::Text(s) && s@ == text@,
            message.tool_calls@.len() == 0,
            message.tool_call_id is None,
    {
        Message {
            role: Role::User,
            content: MessageContent::Text(text.to_owned()),
            tool_calls: Vec::new(),
            tool_call_id: None,
        }
    }

    /// A user message of parts, with the text that stands for them.
    pub fn user_parts(parts: Vec<ContentPart>, text: String) -> (message: Message)
        ensures
            message.role == Role::User,
            message.content == (MessageContent::Parts { parts, text }),
            message.tool_calls@.len() == 0,
            message.tool_call_id is None,
    {
        Message {
            role: Role::User,
            content: MessageContent::Parts { parts, text },
            tool_calls: Vec::new(),
            tool_call_id: None,
        }
    }

    /// An assistant message: what it said and which tools it asked for.
    pub fn assistant_text_and_tool_calls(text: &str, tool_calls: Vec<ToolCall>) -> (message:
        Message)
        ensures
            message.role == Role::Assistant,
            message.content matches MessageContent::Text(s) && s@ == text@,
            message.tool_calls == tool_calls,
            message.tool_call_id is None,
    {
        Message {
            role: Role::Assistant,
            content: MessageContent::Text(text.to_owned()),
            tool_calls,
            tool_call_id: None,
        }
    }

    /// The result of a tool call.
    pub fn tool_result(tool_call_id: &str, text: &str) -> (message: Message)
        ensures
            message.role == Role::Tool,
            message.content matches MessageContent::Text(s) && s@ == text@,
            message.tool_calls@.len() == 0,
            message.tool_call_id matches Some(id) && id@ == tool_call_id@,
    {
        Message {
            role: Role::Tool,
            content: MessageContent::Text(text.to_owned()),
            tool_calls: Vec::new(),
            tool_call_id: Some(tool_call_id.to_owned()),
        }
    }
}

// ---------------------------------------------------------------------------
// Chat
// ---------------------------------------------------------------------------

/// A tool that the model may call.
#[derive(Debug)]
pub struct ToolDef {
    pub name: String,
    pub description: String,
    pub parameters: Json,
}

/// Whether the model may, must or must not call tools.
#[derive(Clone, Copy, Debug, PartialEq, Eq, Structural)]
pub enum ToolChoiceWire {
    Auto,
    Required,
    Forbidden,
}

/// A chat request.
#[derive(Debug)]
pub struct NormalizedChatRequest {
    pub model: String,
    pub messages: Vec<Message>,
    pub response_schema: Option<Json>,
    pub strict_response: bool,
    pub tools: Vec<ToolDef>,
    pub tool_choice: ToolChoiceWire,
    pub temperature: Option<Float>,
    pub top_p: Option<Float>,
    pub max_completion_tokens: Option<u32>,
    pub seed: Option<i64>,
}

/// Why the model stopped.
#[derive(Clone, Copy, Debug, PartialEq, Eq, Structural)]
pub enum FinishReason {
    Stop,
    Length,
    ToolCalls,
    ContentFilter,
    Other,
}

/// How many tokens a call took.
#[derive(Clone, Copy, Debug, PartialEq, Eq, Structural)]
pub struct TokenUsage {
    pub input_tokens: u32,
    pub output_tokens: u32,
    pub cached_input_tokens: u32,
}

impl TokenUsage {
    /// No tokens at all.
    pub open spec fn zero() -> TokenUsage {
        TokenUsage { input_tokens: 0, output_tokens: 0, cached_input_tokens: 0 }
    }
}

/// A chat reply.
#[derive(Debug)]
pub struct NormalizedChatResponse {
    pub content: String,
    pub tool_calls: Vec<ToolCall>,
    pub finish_reason: FinishReason,
    pub usage: TokenUsage,
}

/// What a chat reply says.
pub struct ChatResponseView {
    pub content: Seq<char>,
    pub tool_calls: Seq<ToolCallView>,
    pub finish_reason: FinishReason,
    pub usage: TokenUsage,
}

/// What a list of tool calls says.
pub open spec fn call_views(calls: Seq<ToolCall>) -> Seq<ToolCallView> {
    calls.map_values(|call: ToolCall| call@)
}

impl View for NormalizedChatResponse {
    type V = ChatResponseView;

    open spec fn view(&self) -> ChatResponseView {
        ChatResponseView {
            content: self.content@,
            tool_calls: call_views(self.tool_calls@),
            finish_reason: self.finish_reason,
            usage: self.usage,
        }
    }
}

/// One event of a streamed chat reply.
#[derive(Debug)]
pub enum NormalizedStreamEvent {
    TextDelta(String),
    ToolCallReady(ToolCall),
    Finish { reason: FinishReason, usage: TokenUsage },
}

/// What an event of a streamed chat reply says.
pub enum StreamEventView {
    TextDelta(Seq<char>),
    ToolCallReady(ToolCallView),
    Finish { reason: FinishReason, usage: TokenUsage },
}

impl View for NormalizedStreamEvent {
    type V = StreamEventView;

    open spec fn view(&self) -> StreamEventView {
        match self {
            NormalizedStreamEvent::TextDelta(text) => StreamEventView::TextDelta(text@),
            NormalizedStreamEvent::ToolCallReady(call) => StreamEventView::ToolCallReady(call@),
            NormalizedStreamEvent::Finish { reason, usage } => StreamEventView::Finish {
                reason: *reason,
                usage: *usage,
            },
        }
    }
}

// ---------------------------------------------------------------------------
// Embeddings
// ---------------------------------------------------------------------------

/// An embedding request.
#[derive(Debug)]
pub struct NormalizedEmbeddingRequest {
    pub model: String,
    pub inputs: Vec<String>,
    pub dimensions: Option<u32>,
}

/// An embedding reply. Each vector holds the JSON numbers that the provider
/// sent, in their order.
#[derive(Debug)]
pub struct NormalizedEmbeddingResponse {
    pub embeddings: Vec<Vec<Number>>,
    pub dimensions: u32,
    pub usage: Option<TokenUsage>,
}

/// What an embedding reply says.
pub struct EmbeddingResponseView {
    pub embeddings: Seq<Seq<Number>>,
    pub dimensions: u32,
    pub usage: Option<TokenUsage>,
}

impl View for NormalizedEmbeddingResponse {
    type V = EmbeddingResponseView;

    open spec fn view(&self) -> EmbeddingResponseView {
        EmbeddingResponseView {
            embeddings: self.embeddings@.map_values(|vector: Vec<Number>| vector@),
            dimensions: self.dimensions,
            usage: self.usage,
        }
    }
}

// ---------------------------------------------------------------------------
// Images
// ---------------------------------------------------------------------------

/// An image-generation request.
#[derive(Debug)]
pub struct NormalizedImageRequest {
    pub model: String,
    pub prompt: String,
    pub n: u32,
    pub size: Option<String>,
    pub quality: Option<String>,
    pub style: Option<String>,
    pub seed: Option<u64>,
    pub negative_prompt: Option<String>,
    pub output_format: Option<String>,
}

/// One generated image.
#[derive(Debug)]
pub struct GeneratedImage {
    pub bytes: Vec<u8>,
    pub mime_type: String,
    pub revised_prompt: Option<String>,
}

/// What a generated image is.
pub struct ImageView {
    pub bytes: Seq<u8>,
    pub mime_type: Seq<char>,
    pub revised_prompt: Option<Seq<char>>,
}

impl View for GeneratedImage {
    type V = ImageView;

    open spec fn view(&self) -> ImageView {
        ImageView {
            bytes: self.bytes@,
            mime_type: self.mime_type@,
            revised_prompt: match self.revised_prompt {
                Some(text) => Some(text@),
                None => None,
            },
        }
    }
}

/// An image-generation reply.
#[derive(Debug)]
pub struct NormalizedImageResponse {
    pub images: Vec<GeneratedImage>,
}

impl View for NormalizedImageResponse {
    type V = Seq<ImageView>;

    open spec fn view(&self) -> Seq<ImageView> {
        self.images@.map_values(|image: GeneratedImage| image@)
    }
}

// ---------------------------------------------------------------------------
// Failures
// ---------------------------------------------------------------------------

/// How a call to the provider fails.
#[derive(Debug)]
pub enum ProviderError {
    RateLimited { message: String },
    AuthFailed { message: String },
    ContextLimit { message: String },
    BadRequest { message: String },
    Server { message: String },
    Network { message: String },
    Malformed { message: String },
}

/// What a failure says.
pub enum ProviderErrorView {
    RateLimited { message: Seq<char> },
    AuthFailed { message: Seq<char> },
    ContextLimit { message: Seq<char> },
    BadRequest { message: Seq<char> },
    Server { message: Seq<char> },
    Network { message: Seq<char> },
    Malformed { message: Seq<char> },
}

impl View for ProviderError {
    type V = ProviderErrorView;

    open spec fn view(&self) -> ProviderErrorView {
        match self {
            ProviderError::RateLimited { message } => ProviderErrorView::RateLimited {
                message: message@,
            },
            ProviderError::AuthFailed { message } => ProviderErrorView::AuthFailed {
                message: message@,
            },
            ProviderError::ContextLimit { message } => ProviderErrorView::ContextLimit {
                message: message@,
            },
            ProviderError::BadRequest { message } => ProviderErrorView::BadRequest {
                message: message@,
            },
            ProviderError::Server { message } => ProviderErrorView::Server { message: message@ },
            ProviderError::Network { message } => ProviderErrorView::Network { message: message@ },
            ProviderError::Malformed { message } => ProviderErrorView::Malformed {
                message: message@,
            },
        }
    }
}

impl ProviderErrorView {
    /// A rate limit, a failing server or a failing network may pass; the rest
    /// will not.
    pub open spec fn retryable(self) -> bool {
        self is RateLimited || self is Server || self is Network
    }

    /// What the failure says in words.
    pub open spec fn text(self) -> Seq<char> {
        match self {
            ProviderErrorView::RateLimited { message } => message,
            ProviderErrorView::AuthFailed { message } => message,
            ProviderErrorView::ContextLimit { message } => message,
            ProviderErrorView::BadRequest { message } => message,
            ProviderErrorView::Server { message } => message,
            ProviderErrorView::Network { message } => message,
            ProviderErrorView::Malformed { message } => message,
        }
    }
}

impl ProviderError {
    /// Whether trying again may help.
    pub fn is_retryable(&self) -> (yes: bool)
        ensures
            yes == self@.retryable(),
    {
        match self {
            ProviderError::RateLimited { .. } => true,
            ProviderError::Server { .. } => true,
            ProviderError::Network { .. } => true,
            _ => false,
        }
    }

    /// What the failure says in words.
    pub fn message(&self) -> (text: &str)
        ensures
            text@ == self@.text(),
    {
        match self {
            ProviderError::RateLimited { message } => message.as_str(),
            ProviderError::AuthFailed { message } => message.as_str(),
            ProviderError::ContextLimit { message } => message.as_str(),
            ProviderError::BadRequest { message } => message.as_str(),
            ProviderError::Server { message } => message.as_str(),
            ProviderError::Network { message } => message.as_str(),
            ProviderError::Malformed { message } => message.as_str(),
        }
    }
}

} // verus!
