//! Which profiles are accepted, and how they are held.

use crate::backend::{BackendError, PluginClass, PluginManifest};
use crate::config;
use crate::config::{
    ApiKeyRef, BudgetSpec, CacheSpec, ChatExecutionSpec, ConfigError, EmbeddingExecutionSpec,
    GeminiChatSpec, GeminiEmbeddingSpec, GeminiImageSpec, GuardrailsSpec, ImageExecutionSpec,
    OnIterationExhausted, OnMismatch, PromptSpec, ResponseFormatMode, ResponseFormatSpec,
    RetryClass, RetrySpec, SamplingSpec, StreamingSpec, ToolsSpec,
};
use crate::http;
use crate::json;
use crate::json::{Json, Tree};
use crate::normalized::ToolChoiceWire;
use crate::plugin;
use crate::plugin::{Accepted, ChatEngine, GeminiChatPlugin, Templated};
use crate::registry::Registry;
use crate::text;
use vstd::prelude::*;

verus! {

/// The rules of a chat configuration.
pub open spec fn keeps_the_rules(spec: ChatExecutionSpec) -> bool {
    &&& !text::is_blank(spec.prompt.system@)
    &&& !text::is_blank(spec.prompt.user@)
    &&& spec.tools.max_iterations matches Some(n) ==> n <= 50
    &&& spec.retry.initial_backoff_ms <= spec.retry.max_backoff_ms
    &&& spec.cache.enabled ==> spec.tools.allowed@.len() == 0
    &&& spec.response_format.on_mismatch == OnMismatch::ReturnRaw ==> spec.response_format.mode
        == ResponseFormatMode::Text
}

/// What a profile says is in order if and only if it keeps every rule and its
/// key is not empty. Where a client was built, it is accepted if and only if its
/// base URL is not empty either.
pub proof fn law_profiles_in_order_keep_every_rule(spec: GeminiChatSpec, client: reqwest::Client)
    ensures
        config::chat_fault(spec.chat) is None <==> keeps_the_rules(spec.chat),
        plugin::refusal(Ok::<GeminiChatSpec, String>(spec)) is None <==> keeps_the_rules(spec.chat)
            && spec.api_key@.len() > 0,
        plugin::acceptance_error(
            Ok::<GeminiChatSpec, String>(spec),
            Ok::<reqwest::Client, String>(client),
        ) is None <==> keeps_the_rules(spec.chat) && spec.api_key@.len() > 0
            && config::base_url_or_default(spec.base_url).len() > 0,
{
}

/// To register a profile under a new name makes one more; under a name that is
/// taken, it makes none. The profiles under other names stay.
pub proof fn law_names_hold_one_profile<E>(
    profiles: Map<Seq<char>, E>,
    name: Seq<char>,
    engine: E,
    other: Seq<char>,
)
    requires
        profiles.dom().finite(),
        other != name,
    ensures
        profiles.insert(name, engine).dom().len() == profiles.dom().len() + if profiles.dom().contains(
            name,
        ) {
            0nat
        } else {
            1nat
        },
        profiles.insert(name, engine).dom().contains(other) == profiles.dom().contains(other),
        profiles.dom().contains(other) ==> profiles.insert(name, engine)[other] == profiles[other],
{
    if profiles.dom().contains(name) {
        assert(profiles.insert(name, engine).dom() =~= profiles.dom());
    } else {
        assert(profiles.insert(name, engine).dom() =~= profiles.dom().insert(name));
    }
}

// ---------------------------------------------------------------------------
// Rules
// ---------------------------------------------------------------------------

/// A rule that a chat configuration breaks.
pub open spec fn breaks(spec: ChatExecutionSpec, rule: ConfigError) -> bool {
    match rule {
        ConfigError::EmptySystemPrompt => text::is_blank(spec.prompt.system@),
        ConfigError::EmptyUserPrompt => text::is_blank(spec.prompt.user@),
        ConfigError::TooManyIterations => spec.tools.max_iterations matches Some(n) && n > 50,
        ConfigError::BackoffOrder => spec.retry.initial_backoff_ms > spec.retry.max_backoff_ms,
        ConfigError::CacheWithTools => spec.cache.enabled && spec.tools.allowed@.len() > 0,
        ConfigError::RawOutsideText => spec.response_format.on_mismatch == OnMismatch::ReturnRaw
            && spec.response_format.mode != ResponseFormatMode::Text,
        ConfigError::ZeroImages => false,
    }
}

/// Which rule counts before which.
pub open spec fn rank(rule: ConfigError) -> int {
    match rule {
        ConfigError::EmptySystemPrompt => 0,
        ConfigError::EmptyUserPrompt => 1,
        ConfigError::TooManyIterations => 2,
        ConfigError::BackoffOrder => 3,
        ConfigError::CacheWithTools => 4,
        ConfigError::RawOutsideText => 5,
        ConfigError::ZeroImages => 6,
    }
}

/// What a rule is told in.
pub open spec fn words_of(rule: ConfigError) -> Seq<char> {
    match rule {
        ConfigError::EmptySystemPrompt => "prompt.system must not be empty"@,
        ConfigError::EmptyUserPrompt => "prompt.user must not be empty"@,
        ConfigError::TooManyIterations => "tools.max_iterations must not exceed 50"@,
        ConfigError::BackoffOrder => {
            "retry.initial_backoff_ms must not exceed retry.max_backoff_ms"@
        },
        ConfigError::CacheWithTools => "cache.enabled cannot be combined with tools.allowed"@,
        ConfigError::RawOutsideText => {
            "response_format.on_mismatch: return_raw requires mode: text"@
        },
        ConfigError::ZeroImages => "defaults.n must be at least 1"@,
    }
}

/// The first rule that a chat configuration breaks.
pub open spec fn breaks_first(spec: ChatExecutionSpec, rule: ConfigError) -> bool {
    breaks(spec, rule) && forall|any: ConfigError| #[trigger]
        breaks(spec, any) ==> rank(rule) <= rank(any)
}

proof fn lemma_breaks_first(spec: ChatExecutionSpec, rule: ConfigError)
    requires
        breaks_first(spec, rule),
    ensures
        config::chat_fault(spec) == Some(rule),
        rule.message() == words_of(rule),
{
    let found = config::chat_fault(spec);
    assert(found is Some);
    assert(breaks(spec, found->0));
    assert(rank(found->0) <= rank(rule));
}

/// A verdict names the first rule that a chat configuration breaks, and there is
/// none if and only if it breaks no rule.
pub open spec fn judges(
    verdict: Result<(), ConfigError>,
    spec: ChatExecutionSpec,
    any: ConfigError,
) -> bool {
    match verdict {
        Ok(_) => !breaks(spec, any),
        Err(rule) => breaks(spec, rule) && (breaks(spec, any) ==> rank(rule) <= rank(any)),
    }
}

/// Chat configurations are judged by the first rule that they break; `any` is
/// whichever rule.
pub proof fn law_chat_configurations_are_judged(
    spec: ChatExecutionSpec,
    profile: GeminiChatSpec,
    of_spec: Result<(), ConfigError>,
    of_profile: Result<(), ConfigError>,
    any: ConfigError,
)
    requires
        call_ensures(ChatExecutionSpec::validate, (&spec,), of_spec),
        call_ensures(GeminiChatSpec::validate, (&profile,), of_profile),
    ensures
        judges(of_spec, spec, any),
        judges(of_profile, profile.chat, any),
{
}

/// An image configuration breaks a rule if and only if it asks for no images by
/// default; an embedding configuration breaks none.
pub proof fn law_other_configurations_are_judged(
    spec: ImageExecutionSpec,
    images: GeminiImageSpec,
    embeddings: GeminiEmbeddingSpec,
    of_spec: Result<(), ConfigError>,
    of_images: Result<(), ConfigError>,
    of_embeddings: Result<(), ConfigError>,
)
    requires
        call_ensures(ImageExecutionSpec::validate, (&spec,), of_spec),
        call_ensures(GeminiImageSpec::validate, (&images,), of_images),
        call_ensures(GeminiEmbeddingSpec::validate, (&embeddings,), of_embeddings),
    ensures
        match of_spec {
            Ok(_) => spec.defaults.n != Some(0u32),
            Err(rule) => spec.defaults.n == Some(0u32) && rule == ConfigError::ZeroImages,
        },
        match of_images {
            Ok(_) => images.image.defaults.n != Some(0u32),
            Err(rule) => images.image.defaults.n == Some(0u32) && rule == ConfigError::ZeroImages,
        },
        of_embeddings is Ok,
{
}

/// Each rule is told in its own words.
pub proof fn law_rules_are_told_in_words(rule: ConfigError, said: &'static str)
    requires
        call_ensures(ConfigError::text, (rule,), said),
    ensures
        said@ == words_of(rule),
        rule.message() == words_of(rule),
{
}

/// A base URL that is set counts, and else that of Google AI Studio.
pub open spec fn base_url_of(set: Option<String>) -> Seq<char> {
    match set {
        Some(url) => url@,
        None => "https://generativelanguage.googleapis.com/v1beta"@,
    }
}

/// The three bindings have their base URLs alike.
pub proof fn law_base_urls_are_set_or_default(
    chat: GeminiChatSpec,
    embeddings: GeminiEmbeddingSpec,
    images: GeminiImageSpec,
    urls: (&str, &str, &str),
)
    requires
        call_ensures(GeminiChatSpec::resolved_base_url, (&chat,), urls.0),
        call_ensures(GeminiEmbeddingSpec::resolved_base_url, (&embeddings,), urls.1),
        call_ensures(GeminiImageSpec::resolved_base_url, (&images,), urls.2),
    ensures
        urls.0@ == base_url_of(chat.base_url),
        urls.1@ == base_url_of(embeddings.base_url),
        urls.2@ == base_url_of(images.base_url),
        config::base_url_or_default(chat.base_url) == base_url_of(chat.base_url),
{
}

/// A key is revealed as it was given, and shown as three stars.
pub proof fn law_keys_are_kept_and_hidden(
    value: &str,
    key: ApiKeyRef,
    revealed: &str,
    shown: &'static str,
)
    requires
        call_ensures(ApiKeyRef::new, (value,), key),
        call_ensures(ApiKeyRef::reveal_value, (&key,), revealed),
        call_ensures(ApiKeyRef::redacted, (&key,), shown),
    ensures
        key@ == value@,
        revealed@ == value@,
        shown@ == "***"@,
{
}

// ---------------------------------------------------------------------------
// Defaults
// ---------------------------------------------------------------------------

/// Three tries, on a rate limit, on a failing server and on a failing network,
/// after waits from `first` up to `most` milliseconds.
pub open spec fn tries_thrice(retry: RetrySpec, first: u64, most: u64) -> bool {
    &&& retry.max_attempts == 3
    &&& retry.initial_backoff_ms == first
    &&& retry.max_backoff_ms == most
    &&& retry.retry_on@.len() == 3
    &&& retry.retry_on@[0] == RetryClass::RateLimited
    &&& retry.retry_on@[1] == RetryClass::Server
    &&& retry.retry_on@[2] == RetryClass::Network
}

/// What the sections of a chat binding are where nothing is said.
pub proof fn law_chat_sections_by_default(
    prompt: PromptSpec,
    sampling: SamplingSpec,
    format: ResponseFormatSpec,
    tools: ToolsSpec,
    streaming: StreamingSpec,
    retry: RetrySpec,
    guardrails: GuardrailsSpec,
    cache: CacheSpec,
    budget: BudgetSpec,
)
    requires
        call_ensures(<PromptSpec as Default>::default, (), prompt),
        call_ensures(<SamplingSpec as Default>::default, (), sampling),
        call_ensures(<ResponseFormatSpec as Default>::default, (), format),
        call_ensures(<ToolsSpec as Default>::default, (), tools),
        call_ensures(<StreamingSpec as Default>::default, (), streaming),
        call_ensures(<RetrySpec as Default>::default, (), retry),
        call_ensures(<GuardrailsSpec as Default>::default, (), guardrails),
        call_ensures(<CacheSpec as Default>::default, (), cache),
        call_ensures(<BudgetSpec as Default>::default, (), budget),
    ensures
        prompt.system@.len() == 0 && prompt.user@.len() == 0 && prompt.image_inputs@.len() == 0
            && prompt.audio_inputs@.len() == 0 && prompt.file_inputs@.len() == 0,
        sampling.temperature is None && sampling.top_p is None && sampling.max_completion_tokens
            is None && sampling.seed is None,
        format.mode == ResponseFormatMode::JsonSchema && format.strict && format.on_mismatch
            == OnMismatch::Error,
        tools.allowed@.len() == 0 && tools.max_iterations is None && tools.tool_choice
            == ToolChoiceWire::Auto && tools.tool_result_max_bytes == 16384
            && tools.on_iteration_exhausted == OnIterationExhausted::Error,
        streaming.section is None,
        tries_thrice(retry, 500, 8000),
        guardrails.max_output_tokens_per_iteration is None,
        !cache.enabled && cache.ttl_seconds == 3600000,
        budget.tokens_per_call_cap == 0 && budget.usd_daily_cap.bits == 0,
{
}

/// How embedding and image bindings execute where nothing is said.
pub proof fn law_other_bindings_by_default(
    embeddings: EmbeddingExecutionSpec,
    images: ImageExecutionSpec,
)
    requires
        call_ensures(<EmbeddingExecutionSpec as Default>::default, (), embeddings),
        call_ensures(<ImageExecutionSpec as Default>::default, (), images),
    ensures
        embeddings.model@.len() == 0 && embeddings.dimensions is None && embeddings.max_batch_size
            is None,
        embeddings.timeout_ms == 10000 && embeddings.connect_timeout_ms == 5000,
        tries_thrice(embeddings.retry, 200, 2000),
        !embeddings.cache.enabled && embeddings.cache.ttl_seconds == 86400,
        images.model@.len() == 0 && images.timeout_ms == 60000 && images.connect_timeout_ms == 5000,
        images.defaults.size is None && images.defaults.n is None && images.defaults.negative_prompt
            is None && images.defaults.quality is None && images.defaults.style is None
            && images.defaults.output_format is None,
        tries_thrice(images.retry, 200, 2000),
{
}

// ---------------------------------------------------------------------------
// Accepting a profile
// ---------------------------------------------------------------------------

/// A profile is refused with these words.
pub open spec fn refused_with(error: BackendError, words: Seq<char>) -> bool {
    error matches BackendError::InvalidSpec { message } && message@ == words
}

/// A key that is not empty stands for itself; an empty one is refused.
pub proof fn law_empty_keys_are_refused(key: ApiKeyRef, resolved: Result<String, BackendError>)
    requires
        call_ensures(plugin::resolve_api_key, (&key,), resolved),
    ensures
        match resolved {
            Ok(value) => key@.len() > 0 && value@ == key@,
            Err(error) => key@.len() == 0 && refused_with(error, "api_key is empty"@),
        },
{
}

/// What a profile is answered for the client that was built for it: it is
/// refused where it could not be read, for the first rule that it breaks, for an
/// empty key, where there is no client, and for an empty base URL, in this order.
/// One that is accepted is held as it was read, and calls where it says, with its
/// key, through its client.
pub proof fn law_profiles_are_answered(
    parsed: Result<GeminiChatSpec, String>,
    client: Result<reqwest::Client, String>,
    accepted: Result<Accepted, BackendError>,
    rule: ConfigError,
)
    requires
        call_ensures(plugin::accept_with_client, (parsed, client), accepted),
    ensures
        match parsed {
            Err(why) => accepted matches Err(error) && refused_with(
                error,
                "gemini_chat spec: "@ + why@,
            ),
            Ok(spec) => {
                &&& breaks_first(spec.chat, rule) ==> (accepted matches Err(error) && refused_with(
                    error,
                    words_of(rule),
                ))
                &&& keeps_the_rules(spec.chat) && spec.api_key@.len() == 0 ==> (accepted matches Err(
                    error,
                ) && refused_with(error, "api_key is empty"@))
                &&& keeps_the_rules(spec.chat) && spec.api_key@.len() > 0 ==> match client {
                    Err(why) => accepted matches Err(error) && refused_with(
                        error,
                        "build gemini adapter: "@ + ("build http client: "@ + why@),
                    ),
                    Ok(sender) => if base_url_of(spec.base_url).len() == 0 {
                        accepted matches Err(error) && refused_with(
                            error,
                            "build gemini adapter: "@ + "gemini base_url is empty"@,
                        )
                    } else {
                        accepted matches Ok(profile) && profile.spec == spec
                            && profile.adapter.base() == text::without_trailing(
                            base_url_of(spec.base_url),
                            '/',
                        ) && profile.adapter.key() == spec.api_key@ && profile.adapter.sender()
                            == sender
                    },
                }
            },
        },
{
    if let Ok(spec) = parsed {
        if breaks_first(spec.chat, rule) {
            lemma_breaks_first(spec.chat, rule);
        }
    }
}

/// A profile that is accepted with a client of its own is in order, is held as
/// it was read, and calls where it says, with its key, through a client that
/// introduces itself and waits for a connection as long as the profile says. One
/// that cannot be read or that is not in order is never accepted.
pub proof fn law_accepted_profiles_are_in_order(
    parsed: Result<GeminiChatSpec, String>,
    accepted: Result<Accepted, BackendError>,
    rule: ConfigError,
)
    requires
        call_ensures(plugin::accept, (parsed,), accepted),
    ensures
        parsed matches Ok(spec) ==> {
            &&& breaks_first(spec.chat, rule) ==> (accepted matches Err(error) && refused_with(
                error,
                words_of(rule),
            ))
            &&& keeps_the_rules(spec.chat) && spec.api_key@.len() == 0 ==> (accepted matches Err(
                error,
            ) && refused_with(error, "api_key is empty"@))
        },
        parsed matches Err(why) ==> (accepted matches Err(error) && refused_with(
            error,
            "gemini_chat spec: "@ + why@,
        )),
        accepted matches Ok(profile) ==> {
            &&& parsed == Ok::<GeminiChatSpec, String>(profile.spec)
            &&& keeps_the_rules(profile.spec.chat)
            &&& profile.spec.api_key@.len() > 0
            &&& base_url_of(profile.spec.base_url).len() > 0
            &&& profile.adapter.base() == text::without_trailing(
                base_url_of(profile.spec.base_url),
                '/',
            )
            &&& profile.adapter.key() == profile.spec.api_key@
            &&& http::client_settings(profile.adapter.sender()) == (
                "mcpg-plugin-backend-llm-gemini/1.0"@,
                (profile.spec.chat.connect_timeout_ms * 1_000_000) as nat,
            )
        },
{
    if let Ok(spec) = parsed {
        if breaks_first(spec.chat, rule) {
            lemma_breaks_first(spec.chat, rule);
        }
    }
}

/// The templates of a profile join it as they were compiled, and so does its
/// output schema, as it was written, where replies are to fit one. Templates that
/// did not compile are refused.
pub proof fn law_templates_join_the_profile<T>(
    profile: Accepted,
    compiled: Result<T, String>,
    raw: Json,
    next: Result<Templated<T>, BackendError>,
)
    requires
        call_ensures(Accepted::with_templates::<T>, (profile, compiled, &raw), next),
    ensures
        match compiled {
            Err(why) => next matches Err(error) && refused_with(error, "template: "@ + why@),
            Ok(templates) => {
                &&& next matches Ok(made)
                &&& made.profile == profile
                &&& made.templates == templates
                &&& match (profile.spec.chat.response_format.mode, raw@.get("output_schema"@)) {
                    (
                        ResponseFormatMode::JsonSchema,
                        Some(schema),
                    ) => made.output_schema matches Some(held) && held@ == schema,
                    _ => made.output_schema is None,
                }
            },
        },
{
}

/// An engine is made of all that its profile brings. A schema that did not
/// compile is refused with what was said of it; without a schema there is nothing
/// to compile.
pub proof fn law_engines_hold_all_they_are_made_of<T, V, G, D>(
    profile: Templated<T>,
    name: &str,
    compiled: Result<Option<V>, String>,
    host: G,
    tools: D,
    made: Result<ChatEngine<T, V, G, D>, BackendError>,
)
    requires
        call_ensures(
            Templated::<T>::into_engine::<V, G, D>,
            (profile, name, compiled, host, tools),
            made,
        ),
    ensures
        match (profile.output_schema, compiled) {
            (Some(_), Err(why)) => made matches Err(error) && refused_with(error, why@),
            _ => {
                &&& made matches Ok(engine)
                &&& engine.backend_name@ == name@
                &&& engine.adapter == profile.profile.adapter
                &&& engine.templates == profile.templates
                &&& engine.raw_output_schema == profile.output_schema
                &&& engine.spec == profile.profile.spec.chat
                &&& engine.host == host
                &&& engine.child_tool_defs == tools
                &&& engine.child_tool_validators@.len() == 0
                &&& match profile.output_schema {
                    Some(_) => compiled == Ok::<Option<V>, String>(engine.validator),
                    None => engine.validator is None,
                }
            },
        },
{
}

// ---------------------------------------------------------------------------
// The plugin
// ---------------------------------------------------------------------------

/// A plugin starts without profiles and without a host.
pub proof fn law_plugins_start_empty<E, H>(
    one: GeminiChatPlugin<E, H>,
    other: GeminiChatPlugin<E, H>,
    profiles: usize,
    host: Option<&H>,
)
    requires
        call_ensures(GeminiChatPlugin::<E, H>::new, (), one),
        call_ensures(<GeminiChatPlugin<E, H> as Default>::default, (), other),
        call_ensures(GeminiChatPlugin::<E, H>::registered_profile_count, (&one,), profiles),
        call_ensures(GeminiChatPlugin::<E, H>::host_handle, (&one,), host),
    ensures
        one@ == Map::<Seq<char>, E>::empty() && other@ == one@,
        one.host() is None && other.host() is None,
        profiles == 0,
        host is None,
{
}

/// What a plugin says of itself.
pub proof fn law_plugins_say_what_they_are<E, H>(
    plugin: GeminiChatPlugin<E, H>,
    manifest: &PluginManifest,
    kind: &'static str,
    profiles: usize,
    host: Option<&H>,
)
    requires
        call_ensures(GeminiChatPlugin::<E, H>::manifest, (&plugin,), manifest),
        call_ensures(GeminiChatPlugin::<E, H>::kind, (&plugin,), kind),
        call_ensures(GeminiChatPlugin::<E, H>::registered_profile_count, (&plugin,), profiles),
        call_ensures(GeminiChatPlugin::<E, H>::host_handle, (&plugin,), host),
    ensures
        manifest.id@ == "dev.mcpg.backend.gemini.chat"@,
        manifest.name@ == "Google Gemini (AI Studio)"@,
        manifest.class == PluginClass::Backend,
        kind@ == "gemini.chat"@,
        profiles == plugin@.dom().len(),
        match host {
            Some(handle) => plugin.host() == Some(*handle),
            None => plugin.host() is None,
        },
{
}

/// The first host stays. A later one changes nothing, and neither touches the
/// profiles.
pub proof fn law_the_first_host_stays<E, H>(
    plugin: &mut GeminiChatPlugin<E, H>,
    host: H,
    installed: bool,
)
    requires
        call_ensures(GeminiChatPlugin::<E, H>::set_host_handle, (plugin, host), installed),
    ensures
        final(plugin)@ == old(plugin)@,
        match old(plugin).host() {
            None => installed && final(plugin).host() == Some(host),
            Some(first) => !installed && final(plugin).host() == Some(first),
        },
{
}

/// A profile is found under the name that it was registered under last, and the
/// profiles under other names stay, as does the host.
pub proof fn law_profiles_are_registered_by_name<E, H>(
    plugin: &mut GeminiChatPlugin<E, H>,
    name: &str,
    engine: E,
    other: Seq<char>,
)
    requires
        call_ensures(GeminiChatPlugin::<E, H>::register, (plugin, name, engine), ()),
    ensures
        final(plugin)@.dom().contains(name@) && final(plugin)@[name@] == engine,
        other != name@ ==> final(plugin)@.dom().contains(other) == old(plugin)@.dom().contains(
            other,
        ) && (old(plugin)@.dom().contains(other) ==> final(plugin)@[other] == old(plugin)@[other]),
        final(plugin).host() == old(plugin).host(),
{
}

/// A profile that is not there.
pub open spec fn not_found(error: BackendError, name: Seq<char>) -> bool {
    error matches BackendError::ProfileNotFound { backend_name } && backend_name@ == name
}

/// What stands under a name is found there, and a name under which nothing
/// stands is not found.
pub proof fn law_profiles_are_found_by_name<E, H>(
    plugin: GeminiChatPlugin<E, H>,
    name: &str,
    found: Result<&E, BackendError>,
)
    requires
        call_ensures(GeminiChatPlugin::<E, H>::engine, (&plugin, name), found),
    ensures
        match found {
            Ok(engine) => plugin@.dom().contains(name@) && *engine == plugin@[name@],
            Err(error) => !plugin@.dom().contains(name@) && not_found(error, name@),
        },
{
}

/// The arguments of a call: none where the payload is empty, and else the
/// document that it spells, whatever document that is. A payload that spells none
/// is refused.
pub open spec fn argues(
    arguments: Result<Json, BackendError>,
    payload: Seq<u8>,
    parsed: Result<Tree, Seq<char>>,
) -> bool {
    if payload.len() == 0 {
        arguments matches Ok(none) && none@ == Tree::Object(Map::empty())
    } else {
        match parsed {
            Ok(document) => arguments matches Ok(given) && given@ == document,
            Err(why) => arguments matches Err(error) && refused_with(
                error,
                "execute payload was not JSON: "@ + why,
            ),
        }
    }
}

/// Payloads are read as arguments.
pub proof fn law_payloads_are_arguments(
    payload: &[u8],
    parsed: Result<Json, String>,
    read: Result<Json, BackendError>,
    found: Result<Json, BackendError>,
)
    requires
        call_ensures(plugin::read_arguments, (payload, parsed), read),
        call_ensures(plugin::parse_arguments, (payload,), found),
    ensures
        argues(
            read,
            payload@,
            match parsed {
                Ok(document) => Ok(document@),
                Err(why) => Err(why@),
            },
        ),
        argues(found, payload@, json::json_from_slice(payload@)),
{
}

/// A call goes through the profile of its name with the arguments of its payload.
/// That there is no such profile counts before what is wrong with the payload.
pub proof fn law_calls_begin_with_the_profile<E, H>(
    plugin: GeminiChatPlugin<E, H>,
    name: &str,
    payload: &[u8],
    begun: Result<(&E, Json), BackendError>,
)
    requires
        call_ensures(GeminiChatPlugin::<E, H>::begin_call, (&plugin, name, payload), begun),
    ensures
        if plugin@.dom().contains(name@) {
            match begun {
                Ok((engine, arguments)) => *engine == plugin@[name@] && argues(
                    Ok(arguments),
                    payload@,
                    json::json_from_slice(payload@),
                ),
                Err(error) => argues(Err(error), payload@, json::json_from_slice(payload@)),
            }
        } else {
            begun matches Err(error) && not_found(error, name@)
        },
{
}

/// A registry starts empty, holds under a name what was put there last and under
/// the others what it held, and tells how many names it has.
pub proof fn law_registries_hold_one_value_by_name<E>(
    none: Registry<E>,
    registry: &mut Registry<E>,
    name: &str,
    value: E,
    other: Seq<char>,
    held: Registry<E>,
    found: Option<&E>,
    names: usize,
)
    requires
        call_ensures(Registry::<E>::new, (), none),
        call_ensures(Registry::<E>::insert, (registry, name, value), ()),
        call_ensures(Registry::<E>::get, (&held, name), found),
        call_ensures(Registry::<E>::len, (&held,), names),
    ensures
        !none@.dom().contains(other),
        final(registry)@.dom().contains(name@) && final(registry)@[name@] == value,
        other != name@ ==> final(registry)@.dom().contains(other) == old(registry)@.dom().contains(
            other,
        ) && (old(registry)@.dom().contains(other) ==> final(registry)@[other] == old(
            registry,
        )@[other]),
        match found {
            Some(value) => held@.dom().contains(name@) && held@[name@] == *value,
            None => !held@.dom().contains(name@),
        },
        held@.dom().finite() && names == held@.dom().len(),
{
}

} // verus!
