//! What the host hears of calls.

use crate::backend;
use crate::backend::{AuditEvent, AuditOutcome, BackendError, BackendResponse, PluginIdentity};
use crate::host_handle_obs;
use crate::host_handle_obs::{CallRecord, Increment, Observation, Span, UsageSnapshot};
use crate::json;
use crate::json::{Number, Tree};
use crate::laws::documents::has_just;
use crate::normalized::TokenUsage;
use crate::plugin;
use crate::plugin::{
    ChunkKind, EndedCall, StreamWatch, WatchAction, WatchActionView, WatchModel, Yielded,
    YieldedView,
};
use crate::text;
use vstd::prelude::*;

verus! {

// ---------------------------------------------------------------------------
// What the host hears
// ---------------------------------------------------------------------------

/// The labels that a call's outcome can have.
pub open spec fn outcome_labels() -> Set<Seq<char>> {
    set![
        "ok"@,
        "rate_limited"@,
        "auth_failed"@,
        "model_not_found"@,
        "server_error"@,
        "client_error"@,
        "timeout"@,
        "transport"@,
    ]
}

/// The label of an outcome is one of a few, whatever a failure says: metrics
/// under it stay bounded.
pub proof fn law_outcome_labels_are_bounded(result: Result<(), &BackendError>)
    ensures
        outcome_labels().contains(host_handle_obs::label_of(result)),
{
}

/// A call is labelled `ok` and audited as a completion if and only if it
/// succeeded.
pub proof fn law_completion_means_success(result: Result<(), &BackendError>)
    ensures
        host_handle_obs::label_of(result) == "ok"@ <==> result is Ok,
        host_handle_obs::action_of(host_handle_obs::label_of(result))
            == host_handle_obs::COMPLETION_ACTION@ <==> result is Ok,
{
    reveal_strlit("ok");
    reveal_strlit("rate_limited");
    reveal_strlit("auth_failed");
    reveal_strlit("model_not_found");
    reveal_strlit("server_error");
    reveal_strlit("client_error");
    reveal_strlit("timeout");
    reveal_strlit("transport");
    assert("ok"@.len() == 2);
    assert("rate_limited"@.len() == 12);
    assert("auth_failed"@.len() == 11);
    assert("model_not_found"@.len() == 15);
    assert("server_error"@.len() == 12);
    assert("client_error"@.len() == 12);
    assert("timeout"@.len() == 7);
    assert("transport"@.len() == 9);
    reveal_strlit("dev.mcpg.llm.gemini.completion");
    reveal_strlit("dev.mcpg.llm.gemini.failure");
    assert("dev.mcpg.llm.gemini.completion"@.len() == 30);
    assert("dev.mcpg.llm.gemini.failure"@.len() == 27);
}

/// The case of ASCII letters in a transport failure makes no difference.
pub proof fn law_label_ignores_ascii_case(one: Seq<char>, other: Seq<char>)
    requires
        text::ascii_lower(one) == text::ascii_lower(other),
    ensures
        host_handle_obs::transport_label(one) == host_handle_obs::transport_label(other),
{
}

// ---------------------------------------------------------------------------
// The watch over a streamed call
// ---------------------------------------------------------------------------

/// What the watch knows and has done after a run of yields.
pub open spec fn watched_all(watch: WatchModel, yields: Seq<YieldedView>) -> (
    WatchModel,
    Seq<WatchActionView>,
)
    decreases yields.len(),
{
    if yields.len() == 0 {
        (watch, Seq::empty())
    } else {
        let (before, actions) = watched_all(watch, yields.drop_last());
        let (after, action) = plugin::watched(before, yields.last());
        (after, actions.push(action))
    }
}

/// The host hears of a streamed call once at most: after the report the stream
/// is over.
pub proof fn law_stream_is_reported_once(watch: WatchModel, yields: Seq<YieldedView>)
    requires
        !watch.terminated,
    ensures
        watched_all(watch, yields).1.len() == yields.len(),
        forall|i: int, j: int|
            #![trigger watched_all(watch, yields).1[i], watched_all(watch, yields).1[j]]
            0 <= i < j < yields.len() && watched_all(watch, yields).1[i] is Report ==> watched_all(
                watch,
                yields,
            ).1[j] is Stop,
        watched_all(watch, yields).0.terminated <==> exists|i: int|
            0 <= i < yields.len() && #[trigger] watched_all(watch, yields).1[i] is Report,
    decreases yields.len(),
{
    if yields.len() > 0 {
        let fewer = yields.drop_last();
        law_stream_is_reported_once(watch, fewer);
        let (before, actions) = watched_all(watch, fewer);
        let (after, all) = watched_all(watch, yields);
        let last = yields.len() - 1;
        assert forall|i: int, j: int|
            #![trigger all[i], all[j]]
            0 <= i < j < yields.len() && all[i] is Report implies all[j] is Stop by {
            assert(all[i] == actions[i]);
            if j < last {
                assert(all[j] == actions[j]);
            }
        }
        if after.terminated {
            if before.terminated {
                let i = choose|i: int| 0 <= i < fewer.len() && #[trigger] actions[i] is Report;
                assert(all[i] is Report);
            } else {
                assert(all[last] is Report);
            }
        }
        if exists|i: int| 0 <= i < yields.len() && #[trigger] all[i] is Report {
            let i = choose|i: int| 0 <= i < yields.len() && #[trigger] all[i] is Report;
            if i < last {
                assert(actions[i] is Report);
            }
        }
    }
}

/// A chunk that does not end the call.
pub open spec fn goes_on(yielded: YieldedView) -> bool {
    yielded is Chunk && yielded != YieldedView::Chunk(ChunkKind::Done)
}

/// The tokens of each kind that the chunks brought.
pub open spec fn brought(yields: Seq<YieldedView>) -> (int, int, int)
    decreases yields.len(),
{
    if yields.len() == 0 {
        (0, 0, 0)
    } else {
        let (input, output, cached) = brought(yields.drop_last());
        match yields.last() {
            YieldedView::Chunk(
                ChunkKind::Usage { input_tokens, output_tokens, cached_input_tokens },
            ) => (input + input_tokens, output + output_tokens, cached + cached_input_tokens),
            _ => (input, output, cached),
        }
    }
}

/// A number, or the largest that 64 bits hold where it is larger.
pub open spec fn at_most_max(n: int) -> int {
    if n <= u64::MAX {
        n
    } else {
        u64::MAX as int
    }
}

/// While a call goes on, the watch holds the sum of the tokens that came,
/// stopping at the largest number that 64 bits hold.
pub proof fn law_watch_adds_up(watch: WatchModel, yields: Seq<YieldedView>)
    requires
        !watch.terminated,
        forall|i: int| 0 <= i < yields.len() ==> goes_on(#[trigger] yields[i]),
    ensures
        !watched_all(watch, yields).0.terminated,
        brought(yields).0 >= 0 && brought(yields).1 >= 0 && brought(yields).2 >= 0,
        watched_all(watch, yields).0.usage.input_tokens == at_most_max(
            watch.usage.input_tokens + brought(yields).0,
        ),
        watched_all(watch, yields).0.usage.output_tokens == at_most_max(
            watch.usage.output_tokens + brought(yields).1,
        ),
        watched_all(watch, yields).0.usage.cached_input_tokens == at_most_max(
            watch.usage.cached_input_tokens + brought(yields).2,
        ),
    decreases yields.len(),
{
    if yields.len() > 0 {
        let fewer = yields.drop_last();
        assert forall|i: int| 0 <= i < fewer.len() implies goes_on(#[trigger] fewer[i]) by {
            assert(fewer[i] == yields[i]);
        }
        law_watch_adds_up(watch, fewer);
        assert(goes_on(yields[yields.len() - 1]));
    }
}

/// The report of a call carries the tokens that the watch holds, and the
/// failure if and only if the call failed.
pub proof fn law_report_carries_the_total(watch: WatchModel, yielded: YieldedView)
    requires
        plugin::watched(watch, yielded).1 is Report,
    ensures
        plugin::watched(watch, yielded).1->usage == watch.usage,
        plugin::watched(watch, yielded).1->failure is Some <==> yielded is Failed,
        plugin::watched(watch, yielded).1->failure matches Some(error) ==> yielded
            == YieldedView::Failed(error),
{
}

// ---------------------------------------------------------------------------
// What a label stands for
// ---------------------------------------------------------------------------

/// Speaks of a rate limit.
pub open spec fn speaks_of_rate(lower: Seq<char>) -> bool {
    text::mentions(lower, "429"@) || text::mentions(lower, "rate limit"@) || text::mentions(
        lower,
        "rate_limit"@,
    ) || text::mentions(lower, "resource_exhausted"@)
}

/// Speaks of a refused credential.
pub open spec fn speaks_of_auth(lower: Seq<char>) -> bool {
    text::mentions(lower, "401"@) || text::mentions(lower, "403"@) || text::mentions(
        lower,
        "auth"@,
    ) || text::mentions(lower, "unauthorized"@) || text::mentions(lower, "forbidden"@)
        || text::mentions(lower, "permission_denied"@)
}

/// Speaks of a model that does not exist.
pub open spec fn speaks_of_absence(lower: Seq<char>) -> bool {
    text::mentions(lower, "404"@) || text::mentions(lower, "model not found"@) || text::mentions(
        lower,
        "does not exist"@,
    ) || text::mentions(lower, "not_found"@)
}

/// Speaks of a failing server.
pub open spec fn speaks_of_server(lower: Seq<char>) -> bool {
    text::mentions(lower, "500"@) || text::mentions(lower, "502"@) || text::mentions(lower, "503"@)
        || text::mentions(lower, "504"@) || text::mentions(lower, "server error"@)
        || text::mentions(lower, "unavailable"@) || text::mentions(lower, "internal"@)
}

/// Speaks of a request that the provider cannot take.
pub open spec fn speaks_of_client(lower: Seq<char>) -> bool {
    text::mentions(lower, "400"@) || text::mentions(lower, "invalid"@) || text::mentions(
        lower,
        "invalid_argument"@,
    )
}

/// Speaks of a call that took too long.
pub open spec fn speaks_of_time(lower: Seq<char>) -> bool {
    text::mentions(lower, "timed out"@) || text::mentions(lower, "timeout"@)
}

/// The label of a message: the first class that the message speaks of, whatever
/// the case of ASCII letters, and `transport` where it speaks of none.
pub open spec fn labels(label: Seq<char>, message: Seq<char>) -> bool {
    let lower = text::ascii_lower(message);
    if speaks_of_rate(lower) {
        label == "rate_limited"@
    } else if speaks_of_auth(lower) {
        label == "auth_failed"@
    } else if speaks_of_absence(lower) {
        label == "model_not_found"@
    } else if speaks_of_server(lower) {
        label == "server_error"@
    } else if speaks_of_client(lower) {
        label == "client_error"@
    } else if speaks_of_time(lower) {
        label == "timeout"@
    } else {
        label == "transport"@
    }
}

/// The words of a class, one by one.
proof fn lemma_words(lower: Seq<char>)
    ensures
        host_handle_obs::mentions_any(lower, host_handle_obs::rate_words()) == speaks_of_rate(lower),
        host_handle_obs::mentions_any(lower, host_handle_obs::auth_words()) == speaks_of_auth(lower),
        host_handle_obs::mentions_any(lower, host_handle_obs::missing_words()) == speaks_of_absence(
            lower,
        ),
        host_handle_obs::mentions_any(lower, host_handle_obs::server_words()) == speaks_of_server(
            lower,
        ),
        host_handle_obs::mentions_any(lower, host_handle_obs::client_words()) == speaks_of_client(
            lower,
        ),
        host_handle_obs::mentions_any(lower, host_handle_obs::timeout_words()) == speaks_of_time(
            lower,
        ),
{
    let rate = host_handle_obs::rate_words();
    assert(rate[0] == "429"@ && rate[1] == "rate limit"@ && rate[2] == "rate_limit"@ && rate[3]
        == "resource_exhausted"@);
    let auth = host_handle_obs::auth_words();
    assert(auth[0] == "401"@ && auth[1] == "403"@ && auth[2] == "auth"@ && auth[3]
        == "unauthorized"@ && auth[4] == "forbidden"@ && auth[5] == "permission_denied"@);
    let missing = host_handle_obs::missing_words();
    assert(missing[0] == "404"@ && missing[1] == "model not found"@ && missing[2]
        == "does not exist"@ && missing[3] == "not_found"@);
    let server = host_handle_obs::server_words();
    assert(server[0] == "500"@ && server[1] == "502"@ && server[2] == "503"@ && server[3] == "504"@
        && server[4] == "server error"@ && server[5] == "unavailable"@ && server[6] == "internal"@);
    let client = host_handle_obs::client_words();
    assert(client[0] == "400"@ && client[1] == "invalid"@ && client[2] == "invalid_argument"@);
    let timeout = host_handle_obs::timeout_words();
    assert(timeout[0] == "timed out"@ && timeout[1] == "timeout"@);
}

/// Transport failures are labelled by what they say.
pub proof fn law_transport_failures_are_labelled(message: &str, label: &'static str)
    requires
        call_ensures(host_handle_obs::transport_message_label, (message,), label),
    ensures
        labels(label@, message@),
{
    lemma_words(text::ascii_lower(message@));
}

/// An outcome has this label: success `ok`, a failure that of its kind, and a
/// transport failure that of what it says.
pub open spec fn labels_outcome(label: Seq<char>, result: Result<(), &BackendError>) -> bool {
    match result {
        Ok(_) => label == "ok"@,
        Err(error) => match *error {
            BackendError::ProfileNotFound { backend_name } => label == "model_not_found"@,
            BackendError::Timeout { timeout_ms } => label == "timeout"@,
            BackendError::InvalidSpec { message } => label == "client_error"@,
            BackendError::Transport { message } => labels(label, message@),
        },
    }
}

/// The label of an outcome is the one that it should have, as the contracts
/// speak of it.
proof fn lemma_label(result: Result<(), &BackendError>)
    ensures
        labels_outcome(host_handle_obs::label_of(result), result),
{
    if let Err(error) = result {
        if let BackendError::Transport { message } = *error {
            lemma_words(text::ascii_lower(message@));
        }
    }
}

/// Outcomes are labelled by what they are.
pub proof fn law_outcomes_are_labelled(result: Result<(), &BackendError>, label: &'static str)
    requires
        call_ensures(host_handle_obs::outcome_label, (result,), label),
    ensures
        labels_outcome(label@, result),
{
    lemma_label(result);
}

/// A call under `ok` is audited as a completion, and under any other label as a
/// failure.
pub proof fn law_actions_follow_the_label(label: &str, action: &'static str)
    requires
        call_ensures(host_handle_obs::audit_action_for_outcome, (label,), action),
    ensures
        label@ == "ok"@ ==> action@ == "dev.mcpg.llm.gemini.completion"@,
        label@ != "ok"@ ==> action@ == "dev.mcpg.llm.gemini.failure"@,
{
}

// ---------------------------------------------------------------------------
// What the host is told of a call
// ---------------------------------------------------------------------------

/// A span names the binding and the model of its call, and nothing else.
pub open spec fn spans(span: Span, name: Seq<char>, binding: Seq<char>, model: Seq<char>) -> bool {
    &&& span.name@ == name
    &&& has_just(span.attributes@, set!["binding"@, "model"@])
    &&& span.attributes@.get("binding"@) == Some(Tree::Text(binding))
    &&& span.attributes@.get("model"@) == Some(Tree::Text(model))
}

/// With a host, a call opens a span of its own, and a streamed call one of
/// another name; without a host there is none.
pub proof fn law_calls_open_spans<H>(
    host: Option<&H>,
    binding: &str,
    model: &str,
    whole: Option<Span>,
    streamed: Option<Span>,
)
    requires
        call_ensures(host_handle_obs::open_span::<H>, (host, binding, model), whole),
        call_ensures(host_handle_obs::open_streaming_span::<H>, (host, binding, model), streamed),
    ensures
        host is None ==> whole is None && streamed is None,
        host is Some ==> (whole matches Some(span) && spans(
            span,
            "llm_gemini.execute"@,
            binding@,
            model@,
        )),
        host is Some ==> (streamed matches Some(span) && spans(
            span,
            "llm_gemini.execute_streaming"@,
            binding@,
            model@,
        )),
{
    reveal_strlit("binding");
    reveal_strlit("model");
    assert("binding"@.len() == 7);
    assert("model"@.len() == 5);
    let tree = host_handle_obs::span_tree(binding@, model@);
    assert(tree->Object_0.dom() =~= set!["binding"@, "model"@]);
}

/// The rate card is asked about the tokens of a call, each count as large as 32
/// bits can hold at most.
pub proof fn law_cost_is_asked_for_the_usage(usage: UsageSnapshot, asked: TokenUsage)
    requires
        call_ensures(UsageSnapshot::usage_for_cost, (&usage,), asked),
    ensures
        asked.input_tokens == if usage.input_tokens <= 0xffff_ffff {
            usage.input_tokens as int
        } else {
            0xffff_ffff
        },
        asked.output_tokens == if usage.output_tokens <= 0xffff_ffff {
            usage.output_tokens as int
        } else {
            0xffff_ffff
        },
        asked.cached_input_tokens == if usage.cached_input_tokens <= 0xffff_ffff {
            usage.cached_input_tokens as int
        } else {
            0xffff_ffff
        },
{
}

/// Labels that say the outcome and the model of a call.
pub open spec fn says_outcome(
    list: Seq<(&'static str, String)>,
    result: Result<(), &BackendError>,
    model: Seq<char>,
) -> bool {
    &&& list.len() == 2
    &&& list[0].0@ == "outcome"@
    &&& labels_outcome(list[0].1@, result)
    &&& list[1].0@ == "model"@
    &&& list[1].1@ == model
}

/// An addition to a counter of a model's.
pub open spec fn adds_for_model(
    increment: Increment,
    metric: Seq<char>,
    amount: u64,
    model: Seq<char>,
) -> bool {
    &&& increment.metric@ == metric
    &&& increment.amount == amount
    &&& increment.labels@.len() == 1
    &&& increment.labels@[0].0@ == "model"@
    &&& increment.labels@[0].1@ == model
}

/// A record of a call whose tokens can be added up.
pub open spec fn countable(record: CallRecord) -> bool {
    record.usage matches Some(usage) ==> usage.input_tokens + usage.output_tokens <= u64::MAX
}

proof fn lemma_call_labels(
    list: Seq<(&'static str, String)>,
    result: Result<(), &BackendError>,
    model: Seq<char>,
)
    requires
        host_handle_obs::label_views(list) == host_handle_obs::call_labels(
            host_handle_obs::label_of(result),
            model,
        ),
    ensures
        says_outcome(list, result, model),
{
    lemma_label(result);
    let views = host_handle_obs::label_views(list);
    assert(views.len() == list.len());
    assert(views[0] == (list[0].0@, list[0].1@));
    assert(views[1] == (list[1].0@, list[1].1@));
}

proof fn lemma_model_labels(list: Seq<(&'static str, String)>, model: Seq<char>)
    requires
        host_handle_obs::label_views(list) == host_handle_obs::model_labels(model),
    ensures
        list.len() == 1,
        list[0].0@ == "model"@,
        list[0].1@ == model,
{
    let views = host_handle_obs::label_views(list);
    assert(views.len() == list.len());
    assert(views[0] == (list[0].0@, list[0].1@));
}

/// With a host, the host gets one latency sample under the outcome and the model
/// of the call. The call is counted once under the same labels; its tokens, where
/// they are known, are added under its model, and so is its cost, where that is
/// known too. Nothing else is added. Without a host there is nothing to tell.
pub proof fn law_calls_are_counted<H>(
    host: Option<&H>,
    record: CallRecord,
    identity: Option<PluginIdentity>,
    told: Option<Observation>,
)
    requires
        countable(record),
        call_ensures(host_handle_obs::chat_observability::<H>, (host, &record, identity), told),
    ensures
        host is None ==> told is None,
        host is Some ==> (told matches Some(observed) && counts_call(observed, record)),
{
    if host is Some {
        lemma_counts_call(told->0, record, identity);
    }
}

/// The latency sample and the increments of a call.
pub open spec fn counts_call(told: Observation, record: CallRecord) -> bool {
    let increments = told.increments@;
    let model = record.model@;
    &&& told.latency_metric@ == "mcpg_llm_gemini_latency_seconds"@
    &&& says_outcome(told.latency_labels@, record.result, model)
    &&& increments.len() >= 1
    &&& increments[0].metric@ == "mcpg_llm_gemini_calls_total"@
    &&& increments[0].amount == 1
    &&& says_outcome(increments[0].labels@, record.result, model)
    &&& match record.usage {
        None => increments.len() == 1,
        Some(usage) => {
            &&& increments.len() == if record.cost_usd_micros is Some {
                4int
            } else {
                3int
            }
            &&& adds_for_model(
                increments[1],
                "mcpg_llm_gemini_input_tokens_total"@,
                usage.input_tokens,
                model,
            )
            &&& adds_for_model(
                increments[2],
                "mcpg_llm_gemini_output_tokens_total"@,
                usage.output_tokens,
                model,
            )
            &&& record.cost_usd_micros matches Some(micros) ==> adds_for_model(
                increments[3],
                "mcpg_llm_gemini_cost_usd_micros_total"@,
                micros,
                model,
            )
        },
    }
}

proof fn lemma_counts_call(
    told: Observation,
    record: CallRecord,
    identity: Option<PluginIdentity>,
)
    requires
        host_handle_obs::tells(told, record, identity),
    ensures
        counts_call(told, record),
{
    let model = record.model@;
    lemma_call_labels(told.latency_labels@, record.result, model);
    let views = told.increments@.map_values(|increment: Increment| increment@);
    assert(views.len() == told.increments@.len());
    assert(views == host_handle_obs::increments_of(record));
    assert(views[0] == told.increments@[0]@);
    lemma_call_labels(told.increments@[0].labels@, record.result, model);
    if record.usage is Some {
        assert(views[1] == told.increments@[1]@);
        assert(views[2] == told.increments@[2]@);
        lemma_model_labels(told.increments@[1].labels@, model);
        lemma_model_labels(told.increments@[2].labels@, model);
        if record.cost_usd_micros is Some {
            assert(views[3] == told.increments@[3]@);
            lemma_model_labels(told.increments@[3].labels@, model);
        }
    }
}

/// The plugin itself, where nobody is known to be behind a call.
pub open spec fn is_plugin_itself(identity: PluginIdentity) -> bool {
    &&& identity.kind@ == "system"@
    &&& identity.trust_level@ == "verified"@
    &&& identity.subject_id matches Some(subject) && subject@ == "dev.mcpg.backend.gemini.chat"@
    &&& identity.auth_provider is None
    &&& identity.issuer is None
    &&& identity.roles@.len() == 0
    &&& identity.groups@.len() == 0
    &&& identity.scopes@.len() == 0
    &&& identity.attributes@.len() == 0
}

/// The identity that is made up is that of the plugin itself.
pub proof fn law_the_plugin_stands_in(identity: PluginIdentity)
    requires
        call_ensures(host_handle_obs::synthetic_system_identity, (), identity),
    ensures
        is_plugin_itself(identity),
{
}

/// A call is audited once: under an identifier made of its request and its
/// duration, with the time of its end, with who is behind it or else the plugin
/// itself, as a completion or a failure, on the binding that was called.
pub open spec fn audits_call(
    event: AuditEvent,
    record: CallRecord,
    identity: Option<PluginIdentity>,
) -> bool {
    &&& event.event_id@ == "llm-gemini-"@ + record.request_id@ + "-"@ + text::decimal(
        record.elapsed_nanos as nat,
    )
    &&& event.occurred_at@ == record.occurred_at@
    &&& match identity {
        Some(actor) => event.actor == actor,
        None => is_plugin_itself(event.actor),
    }
    &&& event.resource matches Some(resource) && resource@ == "llm-binding://gemini/"@
        + record.backend_name@
    &&& event.request_id matches Some(id) && id@ == record.request_id@
    &&& event.upstream_request_id is None
    &&& event.node_id is None
    &&& event.prev_event_hash is None
    &&& match record.result {
        Ok(_) => event.outcome == AuditOutcome::Success && event.action@
            == "dev.mcpg.llm.gemini.completion"@,
        Err(_) => event.outcome == AuditOutcome::Failure && event.action@
            == "dev.mcpg.llm.gemini.failure"@,
    }
}

/// With a host, a call is audited as it came out.
pub proof fn law_calls_are_audited<H>(
    host: Option<&H>,
    record: CallRecord,
    identity: Option<PluginIdentity>,
    told: Option<Observation>,
)
    requires
        countable(record),
        call_ensures(host_handle_obs::chat_observability::<H>, (host, &record, identity), told),
    ensures
        host is Some ==> (told matches Some(observed) && audits_call(
            observed.event,
            record,
            identity,
        )),
{
    if host is Some {
        lemma_audits_call(told->0, record, identity);
    }
}

proof fn lemma_audits_call(
    told: Observation,
    record: CallRecord,
    identity: Option<PluginIdentity>,
)
    requires
        host_handle_obs::tells(told, record, identity),
    ensures
        audits_call(told.event, record, identity),
{
    law_completion_means_success(record.result);
}

/// A count under a key.
pub open spec fn counted(details: Tree, key: Seq<char>, n: int) -> bool {
    details.get(key) matches Some(Tree::Number(Number::PosInt(found))) && found == n
}

/// The details of a call: its binding, its model, its outcome, the provider, how
/// many whole milliseconds it took in 64 bits, and the name under which the host runs the
/// plugin. Of its tokens those of input and output and their sum, of those from a
/// cache and of the cost only where there are any; without token counts none of
/// these. Of a failure its class and its words; of a success neither.
pub open spec fn details_call(details: Tree, record: CallRecord) -> bool {
    &&& details.get("binding"@) == Some(Tree::Text(record.backend_name@))
    &&& details.get("model"@) == Some(Tree::Text(record.model@))
    &&& details.get("outcome"@) matches Some(Tree::Text(label)) && labels_outcome(
        label,
        record.result,
    )
    &&& details.get("provider"@) == Some(Tree::Text("gemini"@))
    &&& counted(
        details,
        "duration_ms"@,
        record.elapsed_nanos as int / 1_000_000 % 0x1_0000_0000_0000_0000,
    )
    &&& details.get("alias"@) == Some(
        match record.alias {
            Some(alias) => Tree::Text(alias@),
            None => Tree::Null,
        },
    )
    &&& match record.usage {
        Some(usage) => {
            &&& counted(details, "input_tokens"@, usage.input_tokens as int)
            &&& counted(details, "output_tokens"@, usage.output_tokens as int)
            &&& counted(details, "total_tokens"@, usage.input_tokens + usage.output_tokens)
            &&& usage.cached_input_tokens > 0 ==> counted(
                details,
                "cached_input_tokens"@,
                usage.cached_input_tokens as int,
            )
            &&& usage.cached_input_tokens == 0 ==> details.get("cached_input_tokens"@) is None
            &&& match record.cost_usd_micros {
                Some(micros) => counted(details, "cost_usd_micros"@, micros as int),
                None => details.get("cost_usd_micros"@) is None,
            }
        },
        None => {
            &&& details.get("input_tokens"@) is None
            &&& details.get("output_tokens"@) is None
            &&& details.get("total_tokens"@) is None
            &&& details.get("cached_input_tokens"@) is None
            &&& details.get("cost_usd_micros"@) is None
        },
    }
    &&& match record.result {
        Ok(_) => details.get("error_class"@) is None && details.get("error_message"@) is None,
        Err(_) => details.get("error_class"@) == details.get("outcome"@) && details.get(
            "error_message"@,
        ) == Some(Tree::Text(record.error_text@)),
    }
}

/// One of the keys under which a call's details can stand.
pub open spec fn is_detail(key: Seq<char>) -> bool {
    key == "binding"@ || key == "model"@ || key == "outcome"@ || key == "provider"@ || key
        == "duration_ms"@ || key == "alias"@ || key == "input_tokens"@ || key == "output_tokens"@
        || key == "total_tokens"@ || key == "cached_input_tokens"@ || key == "cost_usd_micros"@
        || key == "error_class"@ || key == "error_message"@
}

/// With a host, the audit event of a call holds its details, and no others.
pub proof fn law_calls_are_audited_in_detail<H>(
    host: Option<&H>,
    record: CallRecord,
    identity: Option<PluginIdentity>,
    told: Option<Observation>,
    key: Seq<char>,
)
    requires
        countable(record),
        call_ensures(host_handle_obs::chat_observability::<H>, (host, &record, identity), told),
    ensures
        host is Some ==> (told matches Some(observed) && details_call(
            observed.event.details@,
            record,
        ) && (!is_detail(key) ==> observed.event.details@.get(key) is None)),
{
    if host is Some {
        lemma_details(record, key);
    }
}

proof fn lemma_details(record: CallRecord, key: Seq<char>)
    requires
        countable(record),
    ensures
        details_call(host_handle_obs::details_of(record), record),
        !is_detail(key) ==> host_handle_obs::details_of(record).get(key) is None,
{
    lemma_label(record.result);
    lemma_detail_keys();
}

proof fn lemma_detail_keys()
    ensures
        "binding"@.len() == 7,
        "model"@.len() == 5 && "model"@[0] == 'm',
        "outcome"@.len() == 7 && "outcome"@[0] == 'o',
        "binding"@[0] == 'b',
        "provider"@.len() == 8,
        "duration_ms"@.len() == 11 && "duration_ms"@[0] == 'd',
        "alias"@.len() == 5 && "alias"@[0] == 'a',
        "input_tokens"@.len() == 12 && "input_tokens"@[0] == 'i',
        "output_tokens"@.len() == 13 && "output_tokens"@[0] == 'o',
        "total_tokens"@.len() == 12 && "total_tokens"@[0] == 't',
        "cached_input_tokens"@.len() == 19,
        "cost_usd_micros"@.len() == 15,
        "error_class"@.len() == 11 && "error_class"@[0] == 'e',
        "error_message"@.len() == 13 && "error_message"@[0] == 'e',
{
    reveal_strlit("binding");
    reveal_strlit("model");
    reveal_strlit("outcome");
    reveal_strlit("provider");
    reveal_strlit("duration_ms");
    reveal_strlit("alias");
    reveal_strlit("input_tokens");
    reveal_strlit("output_tokens");
    reveal_strlit("total_tokens");
    reveal_strlit("cached_input_tokens");
    reveal_strlit("cost_usd_micros");
    reveal_strlit("error_class");
    reveal_strlit("error_message");
}

/// A call that ended is told to the host as it came out, without tokens and
/// without cost, and answered: with its failure, or with its value written out
/// and never truncated.
pub proof fn law_ended_calls_are_told_and_answered<'a, H>(
    host: Option<&H>,
    call: EndedCall<'a>,
    identity: Option<PluginIdentity>,
    result: Result<serde_json::Value, BackendError>,
    ended: (Option<Observation>, Result<BackendResponse, BackendError>),
    record: CallRecord<'a>,
)
    requires
        call_ensures(plugin::finish_execute::<H>, (host, &call, identity, result), ended),
        record == (CallRecord {
            backend_name: call.backend_name,
            model: call.model,
            request_id: call.request_id,
            alias: call.alias,
            elapsed_nanos: call.elapsed_nanos,
            result: match result {
                Ok(_) => Ok(()),
                Err(error) => Err(&error),
            },
            error_text: call.error_text,
            usage: None,
            cost_usd_micros: None,
            occurred_at: call.occurred_at,
        }),
    ensures
        host is None ==> ended.0 is None,
        host is Some ==> (ended.0 matches Some(observed) && counts_call(observed, record)
            && audits_call(observed.event, record, identity) && details_call(
            observed.event.details@,
            record,
        )),
        answers(ended.1, result),
{
    if host is Some {
        lemma_counts_call(ended.0->0, record, identity);
        lemma_audits_call(ended.0->0, record, identity);
        lemma_details(record, ""@);
    }
}

/// The answer to a call that came out so.
pub open spec fn answers(
    response: Result<BackendResponse, BackendError>,
    result: Result<serde_json::Value, BackendError>,
) -> bool {
    match result {
        Err(failure) => response == Err::<BackendResponse, BackendError>(failure),
        Ok(value) => match json::json_to_vec(json::value_tree(value)) {
            Ok(bytes) => response matches Ok(reply) && reply.payload@ == bytes && !reply.truncated,
            Err(why) => response matches Err(BackendError::Transport { message }) && message@
                == "serialize response: "@ + why,
        },
    }
}

/// A call is answered by what it came to.
pub proof fn law_calls_are_answered(
    result: Result<serde_json::Value, BackendError>,
    response: Result<BackendResponse, BackendError>,
)
    requires
        call_ensures(plugin::finish_call, (result,), response),
    ensures
        answers(response, result),
{
}

/// What was written out is the answer, untruncated; what could not be written
/// out is a failure that says why; and a failure is the answer itself.
pub proof fn law_what_is_written_is_answered(
    result: Result<Result<Vec<u8>, String>, BackendError>,
    response: Result<BackendResponse, BackendError>,
)
    requires
        call_ensures(plugin::call_response, (result,), response),
    ensures
        match result {
            Err(failure) => response == Err::<BackendResponse, BackendError>(failure),
            Ok(Ok(bytes)) => response matches Ok(reply) && reply.payload == bytes
                && !reply.truncated,
            Ok(Err(why)) => response matches Err(BackendError::Transport { message }) && message@
                == "serialize response: "@ + why@,
        },
{
}

/// A call that ended is counted as `ok` where it succeeded, and else as `error`.
pub proof fn law_statuses_are_two(succeeded: bool, status: &'static str)
    requires
        call_ensures(plugin::call_status, (succeeded,), status),
    ensures
        succeeded ==> status@ == "ok"@,
        !succeeded ==> status@ == "error"@,
{
}

// ---------------------------------------------------------------------------
// What the watch does
// ---------------------------------------------------------------------------

/// A failure says the same as another.
pub open spec fn same_failure(one: BackendError, other: BackendError) -> bool {
    match (one, other) {
        (
            BackendError::ProfileNotFound { backend_name: a },
            BackendError::ProfileNotFound { backend_name: b },
        ) => a@ == b@,
        (
            BackendError::InvalidSpec { message: a },
            BackendError::InvalidSpec { message: b },
        ) => a@ == b@,
        (BackendError::Timeout { timeout_ms: a }, BackendError::Timeout { timeout_ms: b }) => a
            == b,
        (BackendError::Transport { message: a }, BackendError::Transport { message: b }) => a@
            == b@,
        _ => false,
    }
}

/// A copy of a failure says the same.
pub proof fn law_copies_say_the_same(error: BackendError, copy: BackendError)
    requires
        call_ensures(backend::clone_backend_error, (&error,), copy),
    ensures
        same_failure(copy, error),
{
}

/// A watch starts with nothing counted, over a reply that has not ended.
pub proof fn law_watches_start_with_nothing(
    watch: StreamWatch,
    over: bool,
    usage: UsageSnapshot,
)
    requires
        call_ensures(StreamWatch::new, (), watch),
        call_ensures(StreamWatch::is_terminated, (&watch,), over),
        call_ensures(<UsageSnapshot as Default>::default, (), usage),
    ensures
        !over && !watch@.terminated,
        watch@.usage == usage,
        usage.input_tokens == 0 && usage.output_tokens == 0 && usage.cached_input_tokens == 0,
{
}

/// Whether the watch is over is told as it is.
pub proof fn law_watches_tell_the_end(watch: StreamWatch, over: bool)
    requires
        call_ensures(StreamWatch::is_terminated, (&watch,), over),
    ensures
        over == watch@.terminated,
{
}

/// What a watch does with what a stream yields. After the end it stops and
/// changes nothing. Before it, tokens are added up and passed on, the last chunk
/// and a failure end the reply and are reported with the tokens so far, any other
/// chunk is passed on, and the end of the stream stops it.
pub proof fn law_watches_take_what_comes(
    watch: &mut StreamWatch,
    yielded: Yielded,
    action: WatchAction,
)
    requires
        call_ensures(StreamWatch::step, (watch, &yielded), action),
    ensures
        ({
            let before = old(watch)@;
            let after = final(watch)@;
            if before.terminated {
                action is Stop && after == before
            } else {
                match yielded {
                    Yielded::Chunk(
                        ChunkKind::Usage { input_tokens, output_tokens, cached_input_tokens },
                    ) => {
                        &&& action is Forward
                        &&& !after.terminated
                        &&& after.usage.input_tokens == at_most_max(
                            before.usage.input_tokens + input_tokens,
                        )
                        &&& after.usage.output_tokens == at_most_max(
                            before.usage.output_tokens + output_tokens,
                        )
                        &&& after.usage.cached_input_tokens == at_most_max(
                            before.usage.cached_input_tokens + cached_input_tokens,
                        )
                    },
                    Yielded::Chunk(ChunkKind::Other) => action is Forward && after == before,
                    Yielded::Chunk(ChunkKind::Done) => {
                        &&& after.terminated && after.usage == before.usage
                        &&& action matches WatchAction::Report { failure, usage }
                        &&& failure is None
                        &&& usage == before.usage
                    },
                    Yielded::Failed(error) => {
                        &&& after.terminated && after.usage == before.usage
                        &&& action matches WatchAction::Report { failure, usage }
                        &&& failure matches Some(reported)
                        &&& same_failure(reported, error)
                        &&& usage == before.usage
                    },
                    Yielded::Ended => action is Stop && after == before,
                }
            }
        }),
{
}

} // verus!
