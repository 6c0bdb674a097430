//! What whole replies are read as.

use crate::adapter;
use crate::json::{Json, Number, Tree};
use crate::normalized::{
    ChatResponseView, FinishReason, NormalizedChatResponse, ProviderError, ProviderErrorView,
    TokenUsage, ToolCallView,
};
use crate::text;
use vstd::prelude::*;

verus! {

/// Two tool calls with different numbers have different identifiers.
pub proof fn law_call_ids_differ(m: nat, n: nat)
    requires
        m != n,
    ensures
        adapter::call_id(m) != adapter::call_id(n),
{
    text::lemma_decimal_value(m);
    text::lemma_decimal_value(n);
    let prefix = "gemini_call_"@;
    if adapter::call_id(m) == adapter::call_id(n) {
        assert(text::decimal(m) =~= adapter::call_id(m).skip(prefix.len() as int));
        assert(text::decimal(n) =~= adapter::call_id(n).skip(prefix.len() as int));
    }
}

/// The tool calls of a reply are numbered from one, in the order in which they
/// come.
pub proof fn law_reply_calls_are_numbered(parts: Seq<Tree>, i: int)
    requires
        0 <= i < adapter::parts_calls(parts).len(),
    ensures
        adapter::parts_calls(parts)[i].id == adapter::call_id((i + 1) as nat),
    decreases parts.len(),
{
    if i < adapter::parts_calls(parts.drop_last()).len() {
        law_reply_calls_are_numbered(parts.drop_last(), i);
    }
}

/// No two tool calls of a reply share an identifier.
pub proof fn law_reply_call_ids_differ(parts: Seq<Tree>, i: int, j: int)
    requires
        0 <= i < j < adapter::parts_calls(parts).len(),
    ensures
        adapter::parts_calls(parts)[i].id != adapter::parts_calls(parts)[j].id,
{
    law_reply_calls_are_numbered(parts, i);
    law_reply_calls_are_numbered(parts, j);
    law_call_ids_differ((i + 1) as nat, (j + 1) as nat);
}

/// A reply that stopped of itself finishes with tool calls if and only if it
/// made any.
pub proof fn law_stop_with_calls_is_tool_calls(reply: Tree)
    requires
        adapter::response_of(reply) is Ok,
        adapter::reason_of(adapter::first_candidate(reply)->0) == Some("STOP"@),
    ensures
        adapter::response_of(reply)->Ok_0.finish_reason == if adapter::response_of(
            reply,
        )->Ok_0.tool_calls.len() > 0 {
            FinishReason::ToolCalls
        } else {
            FinishReason::Stop
        },
{
}

/// Two runs of parts say one after the other what they say together.
pub proof fn law_reply_texts_add_up(first: Seq<Tree>, second: Seq<Tree>)
    ensures
        adapter::parts_text(first + second) == adapter::parts_text(first) + adapter::parts_text(
            second,
        ),
    decreases second.len(),
{
    let whole = first + second;
    if second.len() == 0 {
        assert(whole =~= first);
        assert(adapter::parts_text(first) + adapter::parts_text(second) =~= adapter::parts_text(
            first,
        ));
    } else {
        law_reply_texts_add_up(first, second.drop_last());
        assert(whole.drop_last() =~= first + second.drop_last());
        assert(adapter::parts_text(whole) =~= adapter::parts_text(first) + adapter::parts_text(
            second,
        ));
    }
}

/// A part that holds neither a text nor a function call is passed over.
pub proof fn law_other_parts_are_passed_over(parts: Seq<Tree>, other: Tree)
    requires
        adapter::part_text(other) is None,
        other.get("functionCall"@) is None,
    ensures
        adapter::parts_text(parts.push(other)) == adapter::parts_text(parts),
        adapter::parts_calls(parts.push(other)) == adapter::parts_calls(parts),
{
    assert(parts.push(other).drop_last() =~= parts);
}

// ---------------------------------------------------------------------------
// What is read of a reply
// ---------------------------------------------------------------------------

/// The first candidate of a reply is this one, and these are its parts.
pub open spec fn leads_with(reply: Tree, candidate: Tree, parts: Seq<Tree>) -> bool {
    &&& reply.get("candidates"@) matches Some(Tree::Array(candidates))
    &&& candidates.len() > 0
    &&& candidates[0] == candidate
    &&& candidate.get("content"@) matches Some(content)
    &&& content.get("parts"@) == Some(Tree::Array(parts))
}

/// The low 32 bits of the non-negative integer under a key, zero where there is
/// none.
pub open spec fn count_under(usage: Tree, key: Seq<char>) -> int {
    match usage.get(key) {
        Some(Tree::Number(Number::PosInt(n))) => n as int % 0x1_0000_0000,
        _ => 0,
    }
}

/// The token counts are those of a `usageMetadata` block; zero without one.
pub open spec fn counts(usage: TokenUsage, metadata: Option<Tree>) -> bool {
    match metadata {
        Some(block) => {
            &&& usage.input_tokens == count_under(block, "promptTokenCount"@)
            &&& usage.output_tokens == count_under(block, "candidatesTokenCount"@)
            &&& usage.cached_input_tokens == count_under(block, "cachedContentTokenCount"@)
        },
        None => usage.input_tokens == 0 && usage.output_tokens == 0 && usage.cached_input_tokens
            == 0,
    }
}

/// A reply that leads with parts decodes, and any other is malformed for the
/// first thing that it lacks: a first candidate, its content, an array of parts
/// there.
pub proof fn law_replies_decode_or_lack_something(reply: Tree, candidate: Tree, parts: Seq<Tree>)
    ensures
        leads_with(reply, candidate, parts) ==> adapter::response_of(reply) is Ok,
        ({
            let candidates = reply.get("candidates"@);
            let missing = candidates is None || !(candidates->0 is Array)
                || candidates->0->Array_0.len() == 0;
            let first = candidates->0->Array_0[0];
            let content = first.get("content"@);
            let lacking = content is Some && !(content->0.get("parts"@) matches Some(Tree::Array(_)));
            &&& missing ==> adapter::response_of(reply) == Err::<
                ChatResponseView,
                ProviderErrorView,
            >(ProviderErrorView::Malformed { message: "response has no candidates[0]"@ })
            &&& !missing && content is None ==> adapter::response_of(reply) == Err::<
                ChatResponseView,
                ProviderErrorView,
            >(ProviderErrorView::Malformed { message: "candidates[0].content missing"@ })
            &&& !missing && lacking ==> adapter::response_of(reply) == Err::<
                ChatResponseView,
                ProviderErrorView,
            >(ProviderErrorView::Malformed { message: "candidates[0].content.parts missing"@ })
        }),
{
}

/// The usage of a reply is told by its `usageMetadata` alone, whatever its
/// parts are.
pub proof fn law_usage_is_that_of_the_metadata(reply: Tree, candidate: Tree, parts: Seq<Tree>)
    requires
        leads_with(reply, candidate, parts),
    ensures
        counts(adapter::response_of(reply)->Ok_0.usage, reply.get("usageMetadata"@)),
{
}

/// Why a reply ended is told by the word under `finishReason` and by whether it
/// made tool calls.
pub proof fn law_finish_reason_is_that_of_the_candidate(
    reply: Tree,
    candidate: Tree,
    parts: Seq<Tree>,
)
    requires
        leads_with(reply, candidate, parts),
    ensures
        ({
            let read = adapter::response_of(reply)->Ok_0;
            match candidate.get("finishReason"@) {
                Some(Tree::Text(word)) => {
                    &&& word == "STOP"@ && read.tool_calls.len() == 0 ==> read.finish_reason
                        == FinishReason::Stop
                    &&& word == "STOP"@ && read.tool_calls.len() > 0 ==> read.finish_reason
                        == FinishReason::ToolCalls
                    &&& word == "MAX_TOKENS"@ ==> read.finish_reason == FinishReason::Length
                    &&& word == "SAFETY"@ ==> read.finish_reason == FinishReason::ContentFilter
                    &&& word == "TOOL_USE"@ ==> read.finish_reason == FinishReason::ToolCalls
                    &&& word != "STOP"@ && word != "MAX_TOKENS"@ && word != "SAFETY"@ && word
                        != "TOOL_USE"@ ==> read.finish_reason == FinishReason::Other
                },
                _ => read.finish_reason == FinishReason::Other,
            }
        }),
{
    reveal_strlit("STOP");
    reveal_strlit("MAX_TOKENS");
    reveal_strlit("SAFETY");
    reveal_strlit("TOOL_USE");
    assert("STOP"@.len() == 4);
    assert("MAX_TOKENS"@.len() == 10);
    assert("SAFETY"@.len() == 6);
    assert("TOOL_USE"@.len() == 8);
}

/// A reply without parts says nothing and calls nothing.
pub proof fn law_no_parts_say_nothing(reply: Tree, candidate: Tree)
    requires
        leads_with(reply, candidate, Seq::empty()),
    ensures
        adapter::response_of(reply)->Ok_0.content.len() == 0,
        adapter::response_of(reply)->Ok_0.tool_calls.len() == 0,
{
}

/// A function call is this block's, as the `n`th of its reply or stream.
pub open spec fn calls_for(call: ToolCallView, block: Tree, n: nat) -> bool {
    &&& call.id == "gemini_call_"@ + text::decimal(n)
    &&& match block.get("name"@) {
        Some(Tree::Text(name)) => call.name == name,
        _ => call.name.len() == 0,
    }
    &&& match block.get("args"@) {
        Some(arguments) => call.arguments == arguments,
        None => call.arguments == Tree::Null,
    }
}

/// One more part adds to a reply what the part holds: its text at the end of the
/// text, or else its function call at the end of the calls. The rest stays.
pub proof fn law_parts_add_what_they_hold(
    fewer: Tree,
    few_candidate: Tree,
    parts: Seq<Tree>,
    more: Tree,
    more_candidate: Tree,
    part: Tree,
)
    requires
        leads_with(fewer, few_candidate, parts),
        leads_with(more, more_candidate, parts.push(part)),
    ensures
        ({
            let before = adapter::response_of(fewer)->Ok_0;
            let after = adapter::response_of(more)->Ok_0;
            match part.get("text"@) {
                Some(Tree::Text(said)) => {
                    &&& after.content == before.content + said
                    &&& after.tool_calls == before.tool_calls
                },
                _ => {
                    &&& after.content == before.content
                    &&& match part.get("functionCall"@) {
                        Some(block) => {
                            &&& after.tool_calls.len() == before.tool_calls.len() + 1
                            &&& after.tool_calls.drop_last() == before.tool_calls
                            &&& calls_for(after.tool_calls.last(), block, after.tool_calls.len())
                        },
                        None => after.tool_calls == before.tool_calls,
                    }
                },
            }
        }),
{
    assert(parts.push(part).drop_last() =~= parts);
    let before = adapter::parts_calls(parts);
    let after = adapter::parts_calls(parts.push(part));
    if after.len() > before.len() {
        assert(after.drop_last() =~= before);
    }
}

// ---------------------------------------------------------------------------
// What the decoder returns
// ---------------------------------------------------------------------------

/// What is decoded of a reply is what the reply says, field by field, or what is
/// wrong with it.
pub proof fn law_replies_are_read_as_they_are(
    reply: Json,
    decoded: Result<NormalizedChatResponse, ProviderError>,
    i: int,
)
    requires
        call_ensures(adapter::decode_response, (&reply,), decoded),
    ensures
        match decoded {
            Ok(response) => {
                &&& adapter::response_of(reply@) matches Ok(read)
                &&& response.content@ == read.content
                &&& response.tool_calls@.len() == read.tool_calls.len()
                &&& 0 <= i < read.tool_calls.len() ==> response.tool_calls@[i].id@
                    == read.tool_calls[i].id && response.tool_calls@[i].name@
                    == read.tool_calls[i].name && response.tool_calls@[i].arguments@
                    == read.tool_calls[i].arguments
                &&& response.finish_reason == read.finish_reason
                &&& response.usage == read.usage
            },
            Err(error) => adapter::response_of(reply@) == Err::<
                ChatResponseView,
                ProviderErrorView,
            >(error@),
        },
{
    if let Ok(response) = decoded {
        assert(response@.tool_calls.len() == response.tool_calls@.len());
        if 0 <= i < response.tool_calls@.len() {
            assert(response@.tool_calls[i] == response.tool_calls@[i]@);
        }
    }
}

/// The usage that is decoded of a reply is that of its `usageMetadata`, whatever
/// else the reply holds: function calls, texts, or neither.
pub proof fn law_decoded_usage_is_that_of_the_metadata(
    reply: Json,
    candidate: Tree,
    parts: Seq<Tree>,
    decoded: Result<NormalizedChatResponse, ProviderError>,
)
    requires
        call_ensures(adapter::decode_response, (&reply,), decoded),
        leads_with(reply@, candidate, parts),
    ensures
        decoded matches Ok(response) && counts(response.usage, reply@.get("usageMetadata"@)),
{
}

/// Token counts are read of the block that holds them.
pub proof fn law_counts_are_read_of_the_block(block: Option<&Json>, usage: TokenUsage)
    requires
        call_ensures(adapter::decode_usage, (block,), usage),
    ensures
        counts(
            usage,
            match block {
                Some(json) => Some(json@),
                None => None,
            },
        ),
{
}

} // verus!
