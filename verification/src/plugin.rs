//! The chat plugin: its registered profiles, the steps of a registration, the
//! steps of a call, and the watch over a streamed reply.

use crate::adapter::GeminiAdapter;
use crate::backend;
use crate::backend::{
    clone_backend_error, BackendError, BackendResponse, PluginClass, PluginIdentity,
    PluginManifest,
};
use crate::config;
use crate::config::{ApiKeyRef, ChatExecutionSpec, GeminiChatSpec, ResponseFormatMode};
use crate::host_handle_obs::{
    chat_observability, tells, CallRecord, Observation, UsageSnapshot,
};
use crate::http;
use crate::json;
use crate::json::{Fields, Json, Tree};
use crate::registry::Registry;
use crate::text;
use std::time::Duration;
use vstd::prelude::*;

verus! {

// ---------------------------------------------------------------------------
// Registration
// ---------------------------------------------------------------------------

/// A profile that can be called: how it executes, and through what.
pub struct ChatEngine<T, V, G, D> {
    pub backend_name: String,
    pub adapter: GeminiAdapter,
    /// The compiled prompt templates.
    pub templates: T,
    /// The compiled output schema.
    pub validator: Option<V>,
    pub raw_output_schema: Option<Json>,
    pub spec: ChatExecutionSpec,
    /// The gateway, as the engine calls back into it.
    pub host: G,
    /// The declarations of the child tools.
    pub child_tool_defs: D,
    /// The compiled schemas of the child tools' arguments: there are none.
    pub child_tool_validators: Vec<V>,
}

/// A refused configuration.
fn refused(prefix: &str, message: &str) -> (error: BackendError)
    ensures
        error@ == (backend::BackendErrorView::InvalidSpec { message: prefix@ + message@ }),
{
    let mut whole: String = prefix.to_owned();
    whole.append(message);
    BackendError::InvalidSpec { message: whole }
}

/// The key that a reference stands for. An empty one is refused.
pub fn resolve_api_key(key: &ApiKeyRef) -> (resolved: Result<String, BackendError>)
    ensures
        match resolved {
            Ok(value) => key@.len() > 0 && value@ == key@,
            Err(error) => key@.len() == 0 && error@ == (backend::BackendErrorView::InvalidSpec {
                message: "api_key is empty"@,
            }),
        },
{
    let value: String = key.reveal_value().to_owned();
    if value.as_str().is_empty() {
        Err(BackendError::InvalidSpec { message: "api_key is empty".to_owned() })
    } else {
        Ok(value)
    }
}

/// Why a profile is refused by what it says alone; `parsed` is what reading it
/// came to.
pub open spec fn refusal(parsed: Result<GeminiChatSpec, String>) -> Option<
    backend::BackendErrorView,
> {
    match parsed {
        Err(complaint) => Some(
            backend::BackendErrorView::InvalidSpec {
                message: "gemini_chat spec: "@ + complaint@,
            },
        ),
        Ok(spec) => match config::chat_fault(spec.chat) {
            Some(fault) => Some(backend::BackendErrorView::InvalidSpec { message: fault.message() }),
            None => if spec.api_key@.len() == 0 {
                Some(backend::BackendErrorView::InvalidSpec { message: "api_key is empty"@ })
            } else {
                None
            },
        },
    }
}

/// Why a profile is refused, for the client that was built for it.
pub open spec fn acceptance_error(
    parsed: Result<GeminiChatSpec, String>,
    client: Result<reqwest::Client, String>,
) -> Option<backend::BackendErrorView> {
    match refusal(parsed) {
        Some(error) => Some(error),
        None => match http::endpoint_error(
            client,
            config::base_url_or_default(parsed->Ok_0.base_url),
            "gemini base_url is empty"@,
        ) {
            Some(error) => Some(
                backend::BackendErrorView::InvalidSpec {
                    message: "build gemini adapter: "@ + error.text(),
                },
            ),
            None => None,
        },
    }
}

/// A profile that was read and found valid, and the adapter it calls through.
pub struct Accepted {
    pub spec: GeminiChatSpec,
    pub adapter: GeminiAdapter,
}

impl Accepted {
    /// Speaks for a profile: holds what was read, and calls where it says with
    /// the key that it gives.
    pub open spec fn speaks_for(self, spec: GeminiChatSpec) -> bool {
        &&& self.spec == spec
        &&& self.adapter.base() == text::without_trailing(
            config::base_url_or_default(spec.base_url),
            '/',
        )
        &&& self.adapter.key() == spec.api_key@
    }
}

/// The profile and its key, where what it says is in order.
fn checked(parsed: Result<GeminiChatSpec, String>) -> (verdict: Result<
    (GeminiChatSpec, String),
    BackendError,
>)
    ensures
        match verdict {
            Ok((spec, key)) => refusal(parsed) is None && parsed == Ok::<GeminiChatSpec, String>(
                spec,
            ) && key@ == spec.api_key@,
            Err(error) => refusal(parsed) == Some(error@),
        },
{
    match parsed {
        Err(complaint) => Err(refused("gemini_chat spec: ", complaint.as_str())),
        Ok(spec) => match spec.validate() {
            Err(fault) => Err(BackendError::InvalidSpec { message: fault.text().to_owned() }),
            Ok(_) => match resolve_api_key(&spec.api_key) {
                Err(error) => Err(error),
                Ok(key) => Ok((spec, key)),
            },
        },
    }
}

/// Accepts a profile through a client that was built for it, or refuses it.
pub fn accept_with_client(
    parsed: Result<GeminiChatSpec, String>,
    client: Result<reqwest::Client, String>,
) -> (accepted: Result<Accepted, BackendError>)
    ensures
        match accepted {
            Ok(profile) => {
                &&& acceptance_error(parsed, client) is None
                &&& profile.speaks_for(parsed->Ok_0)
                &&& client == Ok::<reqwest::Client, String>(profile.adapter.sender())
            },
            Err(error) => acceptance_error(parsed, client) == Some(error@),
        },
{
    match checked(parsed) {
        Err(error) => Err(error),
        Ok((spec, key)) => match GeminiAdapter::with_client(
            client,
            spec.resolved_base_url(),
            key.as_str(),
        ) {
            Ok(adapter) => Ok(Accepted { spec, adapter }),
            Err(error) => Err(refused("build gemini adapter: ", error.message())),
        },
    }
}

/// Accepts a profile, or refuses it. Whether a client can be built for it rests
/// on the machine. A profile that is accepted is one that `accept_with_client`
/// accepts with the client that was built; so one with an empty base URL never
/// is. A profile that is refused by what else it says is refused in any case,
/// and for that reason.
pub fn accept(parsed: Result<GeminiChatSpec, String>) -> (accepted: Result<Accepted, BackendError>)
    ensures
        match accepted {
            Ok(profile) => {
                &&& acceptance_error(
                    parsed,
                    Ok::<reqwest::Client, String>(profile.adapter.sender()),
                ) is None
                &&& profile.speaks_for(parsed->Ok_0)
                &&& http::client_settings(profile.adapter.sender()) == (
                    http::USER_AGENT@,
                    (profile.spec.chat.connect_timeout_ms * 1_000_000) as nat,
                )
            },
            Err(error) => exists|client: Result<reqwest::Client, String>| #[trigger]
                acceptance_error(parsed, client) == Some(error@),
        },
        refusal(parsed) matches Some(reason) ==> accepted matches Err(error) && error@ == reason,
        parsed matches Ok(spec) ==> config::base_url_or_default(spec.base_url).len() == 0
            ==> accepted is Err,
{
    match checked(parsed) {
        Err(error) => {
            let ghost client: Result<reqwest::Client, String> = arbitrary();
            assert(acceptance_error(parsed, client) == Some(error@));
            Err(error)
        },
        Ok((spec, key)) => {
            let timeout = Duration::from_millis(spec.chat.connect_timeout_ms);
            match GeminiAdapter::new(spec.resolved_base_url(), key.as_str(), timeout) {
                Ok(adapter) => Ok(Accepted { spec, adapter }),
                Err(error) => {
                    proof {
                        let client = choose|client: Result<reqwest::Client, String>| #[trigger]
                            http::endpoint_error(
                                client,
                                config::base_url_or_default(spec.base_url),
                                "gemini base_url is empty"@,
                            ) == Some(error@);
                        assert(acceptance_error(parsed, client) == Some(
                            backend::BackendErrorView::InvalidSpec {
                                message: "build gemini adapter: "@ + error@.text(),
                            },
                        ));
                    }
                    Err(refused("build gemini adapter: ", error.message()))
                },
            }
        },
    }
}

/// The output schema of a profile: that which stands in its configuration,
/// where replies are to fit a schema.
pub open spec fn schema_of(raw: Tree, mode: ResponseFormatMode) -> Option<Tree> {
    if mode == ResponseFormatMode::JsonSchema {
        raw.get("output_schema"@)
    } else {
        None
    }
}

/// What an optional document says.
pub open spec fn optional_tree(json: Option<Json>) -> Option<Tree> {
    match json {
        Some(json) => Some(json@),
        None => None,
    }
}

/// An accepted profile with its templates and its output schema, the schema not
/// yet compiled.
pub struct Templated<T> {
    pub profile: Accepted,
    pub templates: T,
    pub output_schema: Option<Json>,
}

impl Accepted {
    /// Adds the templates, as compiling them came out. `raw` is the profile as
    /// it was written.
    pub fn with_templates<T>(self, compiled: Result<T, String>, raw: &Json) -> (next: Result<
        Templated<T>,
        BackendError,
    >)
        ensures
            match (compiled, next) {
                (Ok(templates), Ok(made)) => {
                    &&& made.profile == self
                    &&& made.templates == templates
                    &&& optional_tree(made.output_schema) == schema_of(
                        raw@,
                        self.spec.chat.response_format.mode,
                    )
                },
                (Err(complaint), Err(error)) => error@ == (backend::BackendErrorView::InvalidSpec {
                    message: "template: "@ + complaint@,
                }),
                _ => false,
            },
    {
        match compiled {
            Err(complaint) => Err(refused("template: ", complaint.as_str())),
            Ok(templates) => {
                let output_schema: Option<Json> = match self.spec.chat.response_format.mode {
                    ResponseFormatMode::JsonSchema => match raw.get("output_schema") {
                        Some(schema) => Some(schema.clone()),
                        None => None,
                    },
                    _ => None,
                };
                Ok(Templated { profile: self, templates, output_schema })
            },
        }
    }
}

impl<T> Templated<T> {
    /// Makes the engine. `compiled` is what compiling the output schema came
    /// to; without a schema it does not count. `child_tool_defs` is what the
    /// gateway declares of the tools that the profile allows.
    pub fn into_engine<V, G, D>(
        self,
        backend_name: &str,
        compiled: Result<Option<V>, String>,
        host: G,
        child_tool_defs: D,
    ) -> (made: Result<ChatEngine<T, V, G, D>, BackendError>)
        ensures
            match made {
                Ok(engine) => {
                    &&& self.output_schema is Some ==> compiled == Ok::<Option<V>, String>(
                        engine.validator,
                    )
                    &&& self.output_schema is None ==> engine.validator is None
                    &&& engine.backend_name@ == backend_name@
                    &&& engine.adapter == self.profile.adapter
                    &&& engine.templates == self.templates
                    &&& engine.raw_output_schema == self.output_schema
                    &&& engine.spec == self.profile.spec.chat
                    &&& engine.host == host
                    &&& engine.child_tool_defs == child_tool_defs
                    &&& engine.child_tool_validators@.len() == 0
                },
                Err(error) => {
                    &&& self.output_schema is Some
                    &&& compiled matches Err(complaint)
                    &&& error@ == (backend::BackendErrorView::InvalidSpec { message: complaint@ })
                },
            },
    {
        let validator: Option<V> = match &self.output_schema {
            Some(_) => match compiled {
                Ok(validator) => validator,
                Err(complaint) => {
                    return Err(BackendError::InvalidSpec { message: complaint });
                },
            },
            None => None,
        };
        Ok(
            ChatEngine {
                backend_name: backend_name.to_owned(),
                adapter: self.profile.adapter,
                templates: self.templates,
                validator,
                raw_output_schema: self.output_schema,
                spec: self.profile.spec.chat,
                host,
                child_tool_defs,
                child_tool_validators: Vec::new(),
            },
        )
    }
}

// ---------------------------------------------------------------------------
// The plugin
// ---------------------------------------------------------------------------

/// The chat plugin. `E` is what a profile is called through, `H` is the host
/// that hears of calls.
pub struct GeminiChatPlugin<E, H> {
    manifest: PluginManifest,
    engines: Registry<E>,
    host_handle: Option<H>,
}

impl<E, H> View for GeminiChatPlugin<E, H> {
    type V = Map<Seq<char>, E>;

    closed spec fn view(&self) -> Map<Seq<char>, E> {
        self.engines@
    }
}

/// The manifest of the plugin.
pub open spec fn is_chat_manifest(manifest: PluginManifest) -> bool {
    &&& manifest.id@ == "dev.mcpg.backend.gemini.chat"@
    &&& manifest.name@ == "Google Gemini (AI Studio)"@
    &&& manifest.class == PluginClass::Backend
}

impl<E, H> GeminiChatPlugin<E, H> {
    /// The manifest is in order.
    #[verifier::type_invariant]
    spec fn introduces_itself(self) -> bool {
        is_chat_manifest(self.manifest)
    }

    /// The host that hears of calls, where one is installed.
    pub closed spec fn host(self) -> Option<H> {
        self.host_handle
    }

    /// The plugin without profiles and without a host.
    pub fn new() -> (plugin: GeminiChatPlugin<E, H>)
        ensures
            plugin@ == Map::<Seq<char>, E>::empty(),
            plugin.host() is None,
    {
        GeminiChatPlugin {
            manifest: PluginManifest {
                id: "dev.mcpg.backend.gemini.chat".to_owned(),
                name: "Google Gemini (AI Studio)".to_owned(),
                class: PluginClass::Backend,
            },
            engines: Registry::new(),
            host_handle: None,
        }
    }

    /// What the plugin says of itself.
    pub fn manifest(&self) -> (manifest: &PluginManifest)
        ensures
            is_chat_manifest(*manifest),
    {
        proof {
            use_type_invariant(self);
        }
        &self.manifest
    }

    /// The kind of bindings that the plugin serves.
    pub fn kind(&self) -> (kind: &'static str)
        ensures
            kind@ == "gemini.chat"@,
    {
        "gemini.chat"
    }

    /// How many profiles are registered.
    pub fn registered_profile_count(&self) -> (n: usize)
        ensures
            self@.dom().finite(),
            n == self@.dom().len(),
    {
        self.engines.len()
    }

    /// Installs the host that hears of calls. The first one stays: a later call
    /// changes nothing and returns `false`.
    pub fn set_host_handle(&mut self, host: H) -> (installed: bool)
        ensures
            installed == (old(self).host() is None),
            final(self).host() == (if installed {
                Some(host)
            } else {
                old(self).host()
            }),
            final(self)@ == old(self)@,
    {
        proof {
            use_type_invariant(&*self);
        }
        if self.host_handle.is_none() {
            self.host_handle = Some(host);
            true
        } else {
            false
        }
    }

    /// The host that hears of calls, where one is installed.
    pub fn host_handle(&self) -> (host: Option<&H>)
        ensures
            match host {
                Some(h) => self.host() == Some(*h),
                None => self.host() is None,
            },
    {
        match &self.host_handle {
            Some(host) => Some(host),
            None => None,
        }
    }

    /// Registers a profile under a name, in the place of what stood there.
    pub fn register(&mut self, backend_name: &str, engine: E)
        ensures
            final(self)@ == old(self)@.insert(backend_name@, engine),
            final(self).host() == old(self).host(),
    {
        proof {
            use_type_invariant(&*self);
        }
        let mut engines: Registry<E> = Registry::new();
        std::mem::swap(&mut engines, &mut self.engines);
        engines.insert(backend_name, engine);
        self.engines = engines;
    }

    /// What a profile is called through.
    pub fn engine(&self, backend_name: &str) -> (found: Result<&E, BackendError>)
        ensures
            match found {
                Ok(engine) => self@.dom().contains(backend_name@) && self@[backend_name@]
                    == *engine,
                Err(error) => !self@.dom().contains(backend_name@) && error@ == (
                backend::BackendErrorView::ProfileNotFound { backend_name: backend_name@ }),
            },
    {
        match self.engines.get(backend_name) {
            Some(engine) => Ok(engine),
            None => Err(BackendError::ProfileNotFound { backend_name: backend_name.to_owned() }),
        }
    }

    /// What a call goes through and with which arguments. That the profile is
    /// missing counts before what is wrong with the payload.
    pub fn begin_call(&self, backend_name: &str, payload: &[u8]) -> (begun: Result<
        (&E, Json),
        BackendError,
    >)
        ensures
            match begun {
                Ok((engine, arguments)) => {
                    &&& self@.dom().contains(backend_name@)
                    &&& self@[backend_name@] == *engine
                    &&& arguments_of(payload@, json::json_from_slice(payload@)) == Ok::<
                        Tree,
                        backend::BackendErrorView,
                    >(arguments@)
                },
                Err(error) => if self@.dom().contains(backend_name@) {
                    arguments_of(payload@, json::json_from_slice(payload@)) == Err::<
                        Tree,
                        backend::BackendErrorView,
                    >(error@)
                } else {
                    error@ == (backend::BackendErrorView::ProfileNotFound {
                        backend_name: backend_name@,
                    })
                },
            },
    {
        match self.engine(backend_name) {
            Err(error) => Err(error),
            Ok(engine) => match parse_arguments(payload) {
                Err(error) => Err(error),
                Ok(arguments) => Ok((engine, arguments)),
            },
        }
    }
}

impl<E, H> Default for GeminiChatPlugin<E, H> {
    fn default() -> (plugin: GeminiChatPlugin<E, H>)
        ensures
            plugin@ == Map::<Seq<char>, E>::empty(),
            plugin.host() is None,
    {
        GeminiChatPlugin::new()
    }
}

// ---------------------------------------------------------------------------
// Calls
// ---------------------------------------------------------------------------

/// The arguments of a call: an empty payload stands for no arguments, another
/// for what reading it came to.
pub open spec fn arguments_of(payload: Seq<u8>, parsed: Result<Tree, Seq<char>>) -> Result<
    Tree,
    backend::BackendErrorView,
> {
    if payload.len() == 0 {
        Ok(Tree::Object(Map::empty()))
    } else {
        match parsed {
            Ok(tree) => Ok(tree),
            Err(complaint) => Err(
                backend::BackendErrorView::InvalidSpec {
                    message: "execute payload was not JSON: "@ + complaint,
                },
            ),
        }
    }
}

/// What reading a document came to.
pub open spec fn outcome_of(parsed: Result<Json, String>) -> Result<Tree, Seq<char>> {
    match parsed {
        Ok(json) => Ok(json@),
        Err(complaint) => Err(complaint@),
    }
}

/// The arguments of a call, for what reading its payload came to.
pub fn read_arguments(payload: &[u8], parsed: Result<Json, String>) -> (arguments: Result<
    Json,
    BackendError,
>)
    ensures
        match arguments {
            Ok(json) => arguments_of(payload@, outcome_of(parsed)) == Ok::<
                Tree,
                backend::BackendErrorView,
            >(json@),
            Err(error) => arguments_of(payload@, outcome_of(parsed)) == Err::<
                Tree,
                backend::BackendErrorView,
            >(error@),
        },
{
    if payload.len() == 0 {
        return Ok(Fields::new().into_json());
    }
    match parsed {
        Ok(json) => Ok(json),
        Err(complaint) => Err(refused("execute payload was not JSON: ", complaint.as_str())),
    }
}

/// The arguments of a call.
pub fn parse_arguments(payload: &[u8]) -> (arguments: Result<Json, BackendError>)
    ensures
        match arguments {
            Ok(json) => arguments_of(payload@, json::json_from_slice(payload@)) == Ok::<
                Tree,
                backend::BackendErrorView,
            >(json@),
            Err(error) => arguments_of(payload@, json::json_from_slice(payload@)) == Err::<
                Tree,
                backend::BackendErrorView,
            >(error@),
        },
{
    read_arguments(payload, Json::parse_slice(payload))
}

/// The status under which a finished call is counted.
pub fn call_status(succeeded: bool) -> (status: &'static str)
    ensures
        status@ == (if succeeded {
            "ok"@
        } else {
            "error"@
        }),
{
    if succeeded {
        "ok"
    } else {
        "error"
    }
}

/// The reply to a call: its failure, or what writing its result out came to.
pub fn call_response(result: Result<Result<Vec<u8>, String>, BackendError>) -> (response: Result<
    BackendResponse,
    BackendError,
>)
    ensures
        match (result, response) {
            (Ok(Ok(payload)), Ok(reply)) => reply == (BackendResponse { payload, truncated: false }),
            (Ok(Err(complaint)), Err(error)) => error@ == (backend::BackendErrorView::Transport {
                message: "serialize response: "@ + complaint@,
            }),
            (Err(failure), Err(error)) => error == failure,
            _ => false,
        },
{
    match result {
        Err(failure) => Err(failure),
        Ok(Err(complaint)) => {
            let mut message: String = "serialize response: ".to_owned();
            message.append(complaint.as_str());
            Err(BackendError::Transport { message })
        },
        Ok(Ok(payload)) => Ok(BackendResponse { payload, truncated: false }),
    }
}

/// The reply to a call that came out as `result`: its failure as it is, or its
/// value written out as JSON and never truncated.
pub open spec fn is_reply_to(
    response: Result<BackendResponse, BackendError>,
    result: Result<serde_json::Value, BackendError>,
) -> bool {
    match result {
        Ok(value) => match (json::json_to_vec(json::value_tree(value)), response) {
            (Ok(bytes), Ok(reply)) => reply.payload@ == bytes && !reply.truncated,
            (Err(complaint), Err(error)) => error@ == (backend::BackendErrorView::Transport {
                message: "serialize response: "@ + complaint,
            }),
            _ => false,
        },
        Err(failure) => response == Err::<BackendResponse, BackendError>(failure),
    }
}

/// The reply to a call.
pub fn finish_call(result: Result<serde_json::Value, BackendError>) -> (response: Result<
    BackendResponse,
    BackendError,
>)
    ensures
        is_reply_to(response, result),
{
    match result {
        Ok(value) => call_response(Ok(json::value_to_vec(&value))),
        Err(failure) => call_response(Err(failure)),
    }
}

/// A call of a profile that came to its end, apart from its outcome.
pub struct EndedCall<'a> {
    pub backend_name: &'a str,
    pub model: &'a str,
    pub request_id: &'a str,
    /// The name under which the host runs the plugin, where it has one.
    pub alias: Option<&'a str>,
    /// How long the call took, in nanoseconds.
    pub elapsed_nanos: u128,
    /// The failure in words.
    pub error_text: &'a str,
    /// When the call ended, in RFC 3339.
    pub occurred_at: &'a str,
}

/// What the host hears of a call that is not streamed: nothing of tokens, and
/// nothing of cost.
pub open spec fn record_of<'a>(
    call: EndedCall<'a>,
    result: Result<(), &'a BackendError>,
) -> CallRecord<'a> {
    CallRecord {
        backend_name: call.backend_name,
        model: call.model,
        request_id: call.request_id,
        alias: call.alias,
        elapsed_nanos: call.elapsed_nanos,
        result,
        error_text: call.error_text,
        usage: None,
        cost_usd_micros: None,
        occurred_at: call.occurred_at,
    }
}

/// How a call came out, its value aside.
pub open spec fn bare_outcome(result: Result<serde_json::Value, BackendError>) -> Result<
    (),
    &'static BackendError,
> {
    match result {
        Ok(_) => Ok(()),
        Err(error) => Err(&error),
    }
}

/// Ends a call that came out as `result`: what the host is told of it, once and
/// where there is a host, and the reply.
pub fn finish_execute<H>(
    host: Option<&H>,
    call: &EndedCall,
    identity: Option<PluginIdentity>,
    result: Result<serde_json::Value, BackendError>,
) -> (ended: (Option<Observation>, Result<BackendResponse, BackendError>))
    ensures
        host is None ==> ended.0 is None,
        host is Some ==> (ended.0 matches Some(told) && tells(
            told,
            record_of(*call, bare_outcome(result)),
            identity,
        )),
        is_reply_to(ended.1, result),
{
    let told = {
        let outcome: Result<(), &BackendError> = match &result {
            Ok(_) => Ok(()),
            Err(error) => Err(error),
        };
        let record = CallRecord {
            backend_name: call.backend_name,
            model: call.model,
            request_id: call.request_id,
            alias: call.alias,
            elapsed_nanos: call.elapsed_nanos,
            result: outcome,
            error_text: call.error_text,
            usage: None,
            cost_usd_micros: None,
            occurred_at: call.occurred_at,
        };
        chat_observability(host, &record, identity)
    };
    (told, finish_call(result))
}

// ---------------------------------------------------------------------------
// Streamed calls
// ---------------------------------------------------------------------------

/// What the watch reads of a chunk.
#[derive(Clone, Copy, Debug, PartialEq, Eq, Structural)]
pub enum ChunkKind {
    /// Tokens that were used since the last such chunk.
    Usage { input_tokens: u64, output_tokens: u64, cached_input_tokens: u64 },
    /// The last chunk.
    Done,
    /// Any other chunk.
    Other,
}

/// What a stream yields next.
#[derive(Debug)]
pub enum Yielded {
    Chunk(ChunkKind),
    Failed(BackendError),
    Ended,
}

/// What a stream yields next.
pub enum YieldedView {
    Chunk(ChunkKind),
    Failed(backend::BackendErrorView),
    Ended,
}

impl View for Yielded {
    type V = YieldedView;

    open spec fn view(&self) -> YieldedView {
        match self {
            Yielded::Chunk(kind) => YieldedView::Chunk(*kind),
            Yielded::Failed(error) => YieldedView::Failed(error@),
            Yielded::Ended => YieldedView::Ended,
        }
    }
}

/// What is done with what a stream yields.
#[derive(Debug)]
pub enum WatchAction {
    /// The stream is over.
    Stop,
    /// It is passed on.
    Forward,
    /// The host hears that the call ended, with its failure where it failed,
    /// and it is passed on.
    Report { failure: Option<BackendError>, usage: UsageSnapshot },
}

/// What is done with what a stream yields.
pub enum WatchActionView {
    Stop,
    Forward,
    Report { failure: Option<backend::BackendErrorView>, usage: UsageSnapshot },
}

impl View for WatchAction {
    type V = WatchActionView;

    open spec fn view(&self) -> WatchActionView {
        match self {
            WatchAction::Stop => WatchActionView::Stop,
            WatchAction::Forward => WatchActionView::Forward,
            WatchAction::Report { failure, usage } => WatchActionView::Report {
                failure: match failure {
                    Some(error) => Some(error@),
                    None => None,
                },
                usage: *usage,
            },
        }
    }
}

/// The sum, or the largest number that 64 bits hold where it is larger.
pub open spec fn saturated(a: u64, b: u64) -> u64 {
    if a + b <= u64::MAX {
        (a + b) as u64
    } else {
        u64::MAX
    }
}

/// What the watch knows: the tokens so far, and whether the call ended.
pub struct WatchModel {
    pub usage: UsageSnapshot,
    pub terminated: bool,
}

/// What the watch knows next, and what it does.
pub open spec fn watched(watch: WatchModel, yielded: YieldedView) -> (WatchModel, WatchActionView) {
    if watch.terminated {
        (watch, WatchActionView::Stop)
    } else {
        match yielded {
            YieldedView::Chunk(
                ChunkKind::Usage { input_tokens, output_tokens, cached_input_tokens },
            ) => {
                let usage = UsageSnapshot {
                    input_tokens: saturated(watch.usage.input_tokens, input_tokens),
                    output_tokens: saturated(watch.usage.output_tokens, output_tokens),
                    cached_input_tokens: saturated(
                        watch.usage.cached_input_tokens,
                        cached_input_tokens,
                    ),
                };
                (WatchModel { usage, terminated: false }, WatchActionView::Forward)
            },
            YieldedView::Chunk(ChunkKind::Done) => (
                WatchModel { usage: watch.usage, terminated: true },
                WatchActionView::Report { failure: None, usage: watch.usage },
            ),
            YieldedView::Chunk(ChunkKind::Other) => (watch, WatchActionView::Forward),
            YieldedView::Failed(error) => (
                WatchModel { usage: watch.usage, terminated: true },
                WatchActionView::Report { failure: Some(error), usage: watch.usage },
            ),
            YieldedView::Ended => (watch, WatchActionView::Stop),
        }
    }
}

/// The watch over a streamed reply: adds up its tokens and has the host told
/// once, at its end.
pub struct StreamWatch {
    usage: UsageSnapshot,
    terminated: bool,
}

impl View for StreamWatch {
    type V = WatchModel;

    closed spec fn view(&self) -> WatchModel {
        WatchModel { usage: self.usage, terminated: self.terminated }
    }
}

impl StreamWatch {
    /// The watch over a reply of which nothing came yet.
    pub fn new() -> (watch: StreamWatch)
        ensures
            watch@ == (WatchModel {
                usage: UsageSnapshot {
                    input_tokens: 0,
                    output_tokens: 0,
                    cached_input_tokens: 0,
                },
                terminated: false,
            }),
    {
        StreamWatch { usage: UsageSnapshot::default(), terminated: false }
    }

    /// Whether the reply ended: the stream is then not asked again.
    pub fn is_terminated(&self) -> (over: bool)
        ensures
            over == self@.terminated,
    {
        self.terminated
    }

    /// Takes in what the stream yields, and says what to do with it.
    pub fn step(&mut self, yielded: &Yielded) -> (action: WatchAction)
        ensures
            (final(self)@, action@) == watched(old(self)@, yielded@),
    {
        if self.terminated {
            return WatchAction::Stop;
        }
        match yielded {
            Yielded::Chunk(
                ChunkKind::Usage { input_tokens, output_tokens, cached_input_tokens },
            ) => {
                self.usage = UsageSnapshot {
                    input_tokens: self.usage.input_tokens.saturating_add(*input_tokens),
                    output_tokens: self.usage.output_tokens.saturating_add(*output_tokens),
                    cached_input_tokens: self.usage.cached_input_tokens.saturating_add(
                        *cached_input_tokens,
                    ),
                };
                WatchAction::Forward
            },
            Yielded::Chunk(ChunkKind::Done) => {
                self.terminated = true;
                WatchAction::Report { failure: None, usage: self.usage }
            },
            Yielded::Chunk(ChunkKind::Other) => WatchAction::Forward,
            Yielded::Failed(error) => {
                self.terminated = true;
                WatchAction::Report { failure: Some(clone_backend_error(error)), usage: self.usage }
            },
            Yielded::Ended => WatchAction::Stop,
        }
    }
}

} // verus!
