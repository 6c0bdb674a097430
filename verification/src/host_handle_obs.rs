//! What the plugin tells its host of each call: a span, a latency sample and
//! counters with bounded labels, and an audit event.

use crate::backend;
use crate::backend::{AuditEvent, AuditOutcome, BackendError, PluginIdentity};
use crate::json;
use crate::json::{Fields, Json, Number, Tree};
use crate::normalized::TokenUsage;
use crate::text;
use vstd::prelude::*;

verus! {

/// The span of a call.
pub const SPAN_EXECUTE: &'static str = "llm_gemini.execute";

/// The span of a streamed call.
pub const SPAN_STREAMING: &'static str = "llm_gemini.execute_streaming";

/// How long a call took.
pub const LATENCY_METRIC: &'static str = "mcpg_llm_gemini_latency_seconds";

/// How many calls there were.
pub const CALLS_METRIC: &'static str = "mcpg_llm_gemini_calls_total";

/// How many tokens went to the model.
pub const INPUT_TOKENS_METRIC: &'static str = "mcpg_llm_gemini_input_tokens_total";

/// How many tokens the model produced.
pub const OUTPUT_TOKENS_METRIC: &'static str = "mcpg_llm_gemini_output_tokens_total";

/// What the calls cost, in millionths of a dollar.
pub const COST_METRIC: &'static str = "mcpg_llm_gemini_cost_usd_micros_total";

/// The audited action of a call that succeeded.
pub const COMPLETION_ACTION: &'static str = "dev.mcpg.llm.gemini.completion";

/// The audited action of a call that failed.
pub const FAILURE_ACTION: &'static str = "dev.mcpg.llm.gemini.failure";

// ---------------------------------------------------------------------------
// Labels
// ---------------------------------------------------------------------------

/// One of the words stands in the text.
pub open spec fn mentions_any(text: Seq<char>, words: Seq<Seq<char>>) -> bool {
    exists|i: int| 0 <= i < words.len() && text::mentions(text, #[trigger] words[i])
}

/// The words of a rate limit.
pub open spec fn rate_words() -> Seq<Seq<char>> {
    seq!["429"@, "rate limit"@, "rate_limit"@, "resource_exhausted"@]
}

/// The words of a refused credential.
pub open spec fn auth_words() -> Seq<Seq<char>> {
    seq!["401"@, "403"@, "auth"@, "unauthorized"@, "forbidden"@, "permission_denied"@]
}

/// The words of a model that does not exist.
pub open spec fn missing_words() -> Seq<Seq<char>> {
    seq!["404"@, "model not found"@, "does not exist"@, "not_found"@]
}

/// The words of a failing server.
pub open spec fn server_words() -> Seq<Seq<char>> {
    seq!["500"@, "502"@, "503"@, "504"@, "server error"@, "unavailable"@, "internal"@]
}

/// The words of a request that the provider cannot take.
pub open spec fn client_words() -> Seq<Seq<char>> {
    seq!["400"@, "invalid"@, "invalid_argument"@]
}

/// The words of a call that took too long.
pub open spec fn timeout_words() -> Seq<Seq<char>> {
    seq!["timed out"@, "timeout"@]
}

/// The label of a transport failure: the first class whose words stand in its
/// message, whatever the case of ASCII letters.
pub open spec fn transport_label(message: Seq<char>) -> Seq<char> {
    let lower = text::ascii_lower(message);
    if mentions_any(lower, rate_words()) {
        "rate_limited"@
    } else if mentions_any(lower, auth_words()) {
        "auth_failed"@
    } else if mentions_any(lower, missing_words()) {
        "model_not_found"@
    } else if mentions_any(lower, server_words()) {
        "server_error"@
    } else if mentions_any(lower, client_words()) {
        "client_error"@
    } else if mentions_any(lower, timeout_words()) {
        "timeout"@
    } else {
        "transport"@
    }
}

/// The label of a call's outcome.
pub open spec fn label_of(result: Result<(), &BackendError>) -> Seq<char> {
    match result {
        Ok(_) => "ok"@,
        Err(err) => match *err {
            BackendError::ProfileNotFound { backend_name } => "model_not_found"@,
            BackendError::Timeout { timeout_ms } => "timeout"@,
            BackendError::InvalidSpec { message } => "client_error"@,
            BackendError::Transport { message } => transport_label(message@),
        },
    }
}

/// The audited action under a label.
pub open spec fn action_of(label: Seq<char>) -> Seq<char> {
    if label == "ok"@ {
        COMPLETION_ACTION@
    } else {
        FAILURE_ACTION@
    }
}

/// Whether one of the words stands among the characters.
fn has_any(chars: &Vec<char>, words: &[&str]) -> (found: bool)
    ensures
        found == mentions_any(chars@, words@.map_values(|word: &str| word@)),
{
    let ghost wanted = words@.map_values(|word: &str| word@);
    let mut i: usize = 0;
    while i < words.len()
        invariant
            i <= words@.len(),
            wanted == words@.map_values(|word: &str| word@),
            forall|k: int| 0 <= k < i ==> !text::mentions(chars@, #[trigger] wanted[k]),
        decreases words@.len() - i,
    {
        assert(wanted[i as int] == words@[i as int]@);
        if text::has(chars, words[i]) {
            return true;
        }
        i = i + 1;
    }
    false
}

/// The label of a transport failure.
pub fn transport_message_label(message: &str) -> (label: &'static str)
    ensures
        label@ == transport_label(message@),
{
    let lower = text::ascii_lower_chars(message);
    let rate = ["429", "rate limit", "rate_limit", "resource_exhausted"];
    let auth = ["401", "403", "auth", "unauthorized", "forbidden", "permission_denied"];
    let missing = ["404", "model not found", "does not exist", "not_found"];
    let server = ["500", "502", "503", "504", "server error", "unavailable", "internal"];
    let client = ["400", "invalid", "invalid_argument"];
    let timeout = ["timed out", "timeout"];
    assert(rate@.map_values(|word: &str| word@) =~= rate_words());
    assert(auth@.map_values(|word: &str| word@) =~= auth_words());
    assert(missing@.map_values(|word: &str| word@) =~= missing_words());
    assert(server@.map_values(|word: &str| word@) =~= server_words());
    assert(client@.map_values(|word: &str| word@) =~= client_words());
    assert(timeout@.map_values(|word: &str| word@) =~= timeout_words());
    if has_any(&lower, &rate) {
        "rate_limited"
    } else if has_any(&lower, &auth) {
        "auth_failed"
    } else if has_any(&lower, &missing) {
        "model_not_found"
    } else if has_any(&lower, &server) {
        "server_error"
    } else if has_any(&lower, &client) {
        "client_error"
    } else if has_any(&lower, &timeout) {
        "timeout"
    } else {
        "transport"
    }
}

/// The label of a call's outcome.
pub fn outcome_label(result: Result<(), &BackendError>) -> (label: &'static str)
    ensures
        label@ == label_of(result),
{
    match result {
        Ok(_) => "ok",
        Err(err) => match err {
            BackendError::ProfileNotFound { .. } => "model_not_found",
            BackendError::Timeout { .. } => "timeout",
            BackendError::InvalidSpec { .. } => "client_error",
            BackendError::Transport { message } => transport_message_label(message.as_str()),
        },
    }
}

/// The audited action under a label.
pub fn audit_action_for_outcome(label: &str) -> (action: &'static str)
    ensures
        action@ == action_of(label@),
{
    if text::same(label, "ok") {
        COMPLETION_ACTION
    } else {
        FAILURE_ACTION
    }
}

// ---------------------------------------------------------------------------
// Spans
// ---------------------------------------------------------------------------

/// A span to open at the host.
#[derive(Debug)]
pub struct Span {
    pub name: &'static str,
    pub attributes: Json,
}

/// The attributes of a call's span.
pub open spec fn span_tree(backend_name: Seq<char>, model: Seq<char>) -> Tree {
    Tree::Object(map!["binding"@ => Tree::Text(backend_name), "model"@ => Tree::Text(model)])
}

/// The span of a call, where a host is installed.
pub fn open_span<H>(host: Option<&H>, backend_name: &str, model: &str) -> (span: Option<Span>)
    ensures
        host is None ==> span is None,
        host is Some ==> (span matches Some(s) && s.name@ == SPAN_EXECUTE@ && s.attributes@
            == span_tree(backend_name@, model@)),
{
    match host {
        Some(_) => Some(
            Span {
                name: SPAN_EXECUTE,
                attributes: json::object2(
                    "binding",
                    json::text_json(backend_name),
                    "model",
                    json::text_json(model),
                ),
            },
        ),
        None => None,
    }
}

/// The span of a streamed call, where a host is installed.
pub fn open_streaming_span<H>(host: Option<&H>, backend_name: &str, model: &str) -> (span: Option<
    Span,
>)
    ensures
        host is None ==> span is None,
        host is Some ==> (span matches Some(s) && s.name@ == SPAN_STREAMING@ && s.attributes@
            == span_tree(backend_name@, model@)),
{
    match host {
        Some(_) => Some(
            Span {
                name: SPAN_STREAMING,
                attributes: json::object2(
                    "binding",
                    json::text_json(backend_name),
                    "model",
                    json::text_json(model),
                ),
            },
        ),
        None => None,
    }
}

// ---------------------------------------------------------------------------
// Metrics and the audit event
// ---------------------------------------------------------------------------

/// How many tokens a call took in all.
#[derive(Clone, Copy, Debug, PartialEq, Eq, Structural)]
pub struct UsageSnapshot {
    pub input_tokens: u64,
    pub output_tokens: u64,
    pub cached_input_tokens: u64,
}

impl Default for UsageSnapshot {
    fn default() -> (usage: UsageSnapshot)
        ensures
            usage == (UsageSnapshot { input_tokens: 0, output_tokens: 0, cached_input_tokens: 0 }),
    {
        UsageSnapshot { input_tokens: 0, output_tokens: 0, cached_input_tokens: 0 }
    }
}

/// A count, or the largest that 32 bits hold where it is larger.
pub open spec fn clamped(n: u64) -> u32 {
    if n <= u32::MAX {
        n as u32
    } else {
        u32::MAX
    }
}

/// A count, or the largest that 32 bits hold where it is larger.
fn clamp(n: u64) -> (m: u32)
    ensures
        m == clamped(n),
{
    if n <= 0xffff_ffff {
        n as u32
    } else {
        0xffff_ffff
    }
}

impl UsageSnapshot {
    /// The usage that the rate card is asked about.
    pub fn usage_for_cost(&self) -> (usage: TokenUsage)
        ensures
            usage.input_tokens == clamped(self.input_tokens),
            usage.output_tokens == clamped(self.output_tokens),
            usage.cached_input_tokens == clamped(self.cached_input_tokens),
    {
        TokenUsage {
            input_tokens: clamp(self.input_tokens),
            output_tokens: clamp(self.output_tokens),
            cached_input_tokens: clamp(self.cached_input_tokens),
        }
    }
}

/// A finished call, as the host is to hear of it.
pub struct CallRecord<'a> {
    pub backend_name: &'a str,
    pub model: &'a str,
    pub request_id: &'a str,
    /// The name under which the host runs the plugin, where it has one.
    pub alias: Option<&'a str>,
    /// How long the call took, in nanoseconds.
    pub elapsed_nanos: u128,
    pub result: Result<(), &'a BackendError>,
    /// The failure in words.
    pub error_text: &'a str,
    pub usage: Option<UsageSnapshot>,
    /// What the rate card says of the usage.
    pub cost_usd_micros: Option<u64>,
    /// When the call ended, in RFC 3339.
    pub occurred_at: &'a str,
}

/// An addition to a counter.
#[derive(Debug)]
pub struct Increment {
    pub metric: &'static str,
    pub amount: u64,
    pub labels: Vec<(&'static str, String)>,
}

/// What an addition to a counter says.
pub struct IncrementView {
    pub metric: Seq<char>,
    pub amount: u64,
    pub labels: Seq<(Seq<char>, Seq<char>)>,
}

/// What a list of labels says.
pub open spec fn label_views(labels: Seq<(&'static str, String)>) -> Seq<(Seq<char>, Seq<char>)> {
    labels.map_values(|label: (&'static str, String)| (label.0@, label.1@))
}

impl View for Increment {
    type V = IncrementView;

    open spec fn view(&self) -> IncrementView {
        IncrementView {
            metric: self.metric@,
            amount: self.amount,
            labels: label_views(self.labels@),
        }
    }
}

/// What the host is told of a call: one latency sample, additions to counters
/// in their order, and an audit event.
#[derive(Debug)]
pub struct Observation {
    pub latency_metric: &'static str,
    pub latency_labels: Vec<(&'static str, String)>,
    pub increments: Vec<Increment>,
    pub event: AuditEvent,
}

/// The labels of a call as such.
pub open spec fn call_labels(label: Seq<char>, model: Seq<char>) -> Seq<(Seq<char>, Seq<char>)> {
    seq![("outcome"@, label), ("model"@, model)]
}

/// The labels of what a call took.
pub open spec fn model_labels(model: Seq<char>) -> Seq<(Seq<char>, Seq<char>)> {
    seq![("model"@, model)]
}

/// The increments of a call: the call itself, and its tokens and cost as far as
/// they are known.
pub open spec fn increments_of(record: CallRecord) -> Seq<IncrementView> {
    let model = record.model@;
    let call = seq![
        IncrementView {
            metric: CALLS_METRIC@,
            amount: 1,
            labels: call_labels(label_of(record.result), model),
        },
    ];
    match record.usage {
        Some(usage) => {
            let tokens = call.push(
                IncrementView {
                    metric: INPUT_TOKENS_METRIC@,
                    amount: usage.input_tokens,
                    labels: model_labels(model),
                },
            ).push(
                IncrementView {
                    metric: OUTPUT_TOKENS_METRIC@,
                    amount: usage.output_tokens,
                    labels: model_labels(model),
                },
            );
            match record.cost_usd_micros {
                Some(micros) => tokens.push(
                    IncrementView {
                        metric: COST_METRIC@,
                        amount: micros,
                        labels: model_labels(model),
                    },
                ),
                None => tokens,
            }
        },
        None => call,
    }
}

/// Whole milliseconds, as far as 64 bits hold them.
pub open spec fn millis(nanos: u128) -> u64 {
    (nanos as int / 1_000_000 % 0x1_0000_0000_0000_0000) as u64
}

/// A count as a document.
pub open spec fn count_tree(n: int) -> Tree {
    Tree::Number(Number::PosInt(n as u64))
}

/// The details that the tokens of a call add.
pub open spec fn usage_details(
    fields: Map<Seq<char>, Tree>,
    usage: UsageSnapshot,
    cost_usd_micros: Option<u64>,
) -> Map<Seq<char>, Tree> {
    let counted = fields.insert("input_tokens"@, count_tree(usage.input_tokens as int)).insert(
        "output_tokens"@,
        count_tree(usage.output_tokens as int),
    ).insert("total_tokens"@, count_tree(usage.input_tokens + usage.output_tokens));
    let cached = json::with_field(
        counted,
        "cached_input_tokens"@,
        if usage.cached_input_tokens > 0 {
            Some(count_tree(usage.cached_input_tokens as int))
        } else {
            None
        },
    );
    json::with_field(
        cached,
        "cost_usd_micros"@,
        match cost_usd_micros {
            Some(micros) => Some(count_tree(micros as int)),
            None => None,
        },
    )
}

/// The details of a call's audit event.
pub open spec fn details_of(record: CallRecord) -> Tree {
    let label = label_of(record.result);
    let common = map![
        "binding"@ => Tree::Text(record.backend_name@),
        "model"@ => Tree::Text(record.model@),
        "outcome"@ => Tree::Text(label),
        "provider"@ => Tree::Text("gemini"@),
        "duration_ms"@ => count_tree(millis(record.elapsed_nanos) as int),
        "alias"@ => match record.alias {
            Some(alias) => Tree::Text(alias@),
            None => Tree::Null,
        },
    ];
    let used = match record.usage {
        Some(usage) => usage_details(common, usage, record.cost_usd_micros),
        None => common,
    };
    Tree::Object(
        match record.result {
            Ok(_) => used,
            Err(_) => used.insert("error_class"@, Tree::Text(label)).insert(
                "error_message"@,
                Tree::Text(record.error_text@),
            ),
        },
    )
}

/// The audit event of a call, its actor aside.
pub open spec fn event_of(record: CallRecord) -> backend::AuditEventView {
    backend::AuditEventView {
        event_id: "llm-gemini-"@ + record.request_id@ + "-"@ + text::decimal(
            record.elapsed_nanos as nat,
        ),
        occurred_at: record.occurred_at@,
        action: action_of(label_of(record.result)),
        resource: Some("llm-binding://gemini/"@ + record.backend_name@),
        outcome: match record.result {
            Ok(_) => AuditOutcome::Success,
            Err(_) => AuditOutcome::Failure,
        },
        request_id: Some(record.request_id@),
        upstream_request_id: None,
        node_id: None,
        details: details_of(record),
        prev_event_hash: None,
    }
}

/// The identity of the plugin itself, which acts where nobody is known to be
/// behind a request.
pub open spec fn is_system(identity: PluginIdentity) -> bool {
    &&& identity.kind@ == "system"@
    &&& identity.trust_level@ == "verified"@
    &&& backend::optional_text(identity.subject_id) == Some("dev.mcpg.backend.gemini.chat"@)
    &&& identity.auth_provider is None
    &&& identity.issuer is None
    &&& identity.roles@.len() == 0
    &&& identity.groups@.len() == 0
    &&& identity.scopes@.len() == 0
    &&& identity.attributes@.len() == 0
}

/// The identity of the plugin itself.
pub fn synthetic_system_identity() -> (identity: PluginIdentity)
    ensures
        is_system(identity),
{
    PluginIdentity {
        kind: "system".to_owned(),
        trust_level: "verified".to_owned(),
        subject_id: Some("dev.mcpg.backend.gemini.chat".to_owned()),
        auth_provider: None,
        issuer: None,
        roles: Vec::new(),
        groups: Vec::new(),
        scopes: Vec::new(),
        attributes: Vec::new(),
    }
}

/// The labels of a call as such.
fn outcome_and_model(label: &str, model: &str) -> (labels: Vec<(&'static str, String)>)
    ensures
        label_views(labels@) == call_labels(label@, model@),
{
    let mut labels: Vec<(&'static str, String)> = Vec::new();
    labels.push(("outcome", label.to_owned()));
    labels.push(("model", model.to_owned()));
    assert(label_views(labels@) =~= call_labels(label@, model@));
    labels
}

/// An addition to a counter of the model's.
fn model_increment(metric: &'static str, amount: u64, model: &str) -> (increment: Increment)
    ensures
        increment@ == (IncrementView { metric: metric@, amount, labels: model_labels(model@) }),
{
    let mut labels: Vec<(&'static str, String)> = Vec::new();
    labels.push(("model", model.to_owned()));
    assert(label_views(labels@) =~= model_labels(model@));
    Increment { metric, amount, labels }
}

/// The increments of a call.
fn increments(record: &CallRecord, label: &str) -> (increments: Vec<Increment>)
    requires
        label@ == label_of(record.result),
    ensures
        increments@.map_values(|increment: Increment| increment@) == increments_of(*record),
{
    let mut increments: Vec<Increment> = Vec::new();
    increments.push(
        Increment { metric: CALLS_METRIC, amount: 1, labels: outcome_and_model(label, record.model) },
    );
    if let Some(usage) = record.usage {
        increments.push(model_increment(INPUT_TOKENS_METRIC, usage.input_tokens, record.model));
        increments.push(model_increment(OUTPUT_TOKENS_METRIC, usage.output_tokens, record.model));
        if let Some(micros) = record.cost_usd_micros {
            increments.push(model_increment(COST_METRIC, micros, record.model));
        }
    }
    assert(increments@.map_values(|increment: Increment| increment@) =~= increments_of(*record));
    increments
}

/// The details of a call's audit event.
fn details(record: &CallRecord, label: &str) -> (details: Json)
    requires
        label@ == label_of(record.result),
        record.usage matches Some(usage) ==> usage.input_tokens + usage.output_tokens <= u64::MAX,
    ensures
        details@ == details_of(*record),
{
    let mut fields = Fields::new();
    fields.insert("binding", json::text_json(record.backend_name));
    fields.insert("model", json::text_json(record.model));
    fields.insert("outcome", json::text_json(label));
    fields.insert("provider", json::text_json("gemini"));
    let duration: u64 = (record.elapsed_nanos / 1_000_000 % 0x1_0000_0000_0000_0000) as u64;
    fields.insert("duration_ms", Json::Number(Number::PosInt(duration)));
    fields.insert(
        "alias",
        match record.alias {
            Some(alias) => json::text_json(alias),
            None => Json::Null,
        },
    );
    if let Some(usage) = record.usage {
        fields.insert("input_tokens", Json::Number(Number::PosInt(usage.input_tokens)));
        fields.insert("output_tokens", Json::Number(Number::PosInt(usage.output_tokens)));
        fields.insert(
            "total_tokens",
            Json::Number(Number::PosInt(usage.input_tokens + usage.output_tokens)),
        );
        if usage.cached_input_tokens > 0 {
            fields.insert(
                "cached_input_tokens",
                Json::Number(Number::PosInt(usage.cached_input_tokens)),
            );
        }
        if let Some(micros) = record.cost_usd_micros {
            fields.insert("cost_usd_micros", Json::Number(Number::PosInt(micros)));
        }
    }
    if record.result.is_err() {
        fields.insert("error_class", json::text_json(label));
        fields.insert("error_message", json::text_json(record.error_text));
    }
    fields.into_json()
}

/// The host is told of a call all that there is to tell: its latency sample and
/// increments under their labels, and its audit event with the one behind the
/// call, or else the plugin itself, for an actor.
pub open spec fn tells(
    told: Observation,
    record: CallRecord,
    identity: Option<PluginIdentity>,
) -> bool {
    &&& told.latency_metric@ == LATENCY_METRIC@
    &&& label_views(told.latency_labels@) == call_labels(label_of(record.result), record.model@)
    &&& told.increments@.map_values(|increment: Increment| increment@) == increments_of(record)
    &&& told.event@ == event_of(record)
    &&& match identity {
        Some(actor) => told.event.actor == actor,
        None => is_system(told.event.actor),
    }
}

/// What the host is told of a call that `identity` is behind. Without a host
/// nobody is told anything.
pub fn chat_observability<H>(
    host: Option<&H>,
    record: &CallRecord,
    identity: Option<PluginIdentity>,
) -> (observation: Option<Observation>)
    requires
        record.usage matches Some(usage) ==> usage.input_tokens + usage.output_tokens <= u64::MAX,
    ensures
        host is None ==> observation is None,
        host is Some ==> (observation matches Some(told) && tells(told, *record, identity)),
{
    if host.is_none() {
        return None;
    }
    let label = outcome_label(record.result);
    let actor = match identity {
        Some(actor) => actor,
        None => synthetic_system_identity(),
    };
    let mut event_id: String = text::concat3("llm-gemini-", record.request_id, "-");
    event_id.append(text::numeral(record.elapsed_nanos).as_str());
    let mut resource: String = "llm-binding://gemini/".to_owned();
    resource.append(record.backend_name);
    let event = AuditEvent {
        event_id,
        occurred_at: record.occurred_at.to_owned(),
        actor,
        action: audit_action_for_outcome(label).to_owned(),
        resource: Some(resource),
        outcome: match record.result {
            Ok(_) => AuditOutcome::Success,
            Err(_) => AuditOutcome::Failure,
        },
        request_id: Some(record.request_id.to_owned()),
        upstream_request_id: None,
        node_id: None,
        details: details(record, label),
        prev_event_hash: None,
    };
    Some(
        Observation {
            latency_metric: LATENCY_METRIC,
            latency_labels: outcome_and_model(label, record.model),
            increments: increments(record, label),
            event,
        },
    )
}

} // verus!
