//! How requests are put into words for the provider.

use crate::adapter;
use crate::json;
use crate::json::{Json, Number, Tree};
use crate::laws::documents::{has_just, object_of, object_of_two};
use crate::normalized;
use crate::normalized::{
    AudioFormat, AudioSource, ContentPart, FileSource, Float, ImageSource, Message, MessageContent,
    NormalizedChatRequest, Role, ToolCall, ToolChoiceWire, ToolDef,
};
use vstd::prelude::*;

verus! {

/// Each message of a conversation goes to one place: a system message to the
/// system prompt, any other to a turn of its own.
pub proof fn law_messages_are_split(messages: Seq<Message>)
    ensures
        adapter::turns(messages).len() + adapter::system_texts(messages).len() == messages.len(),
    decreases messages.len(),
{
    reveal(Seq::filter);
    if messages.len() > 0 {
        law_messages_are_split(messages.drop_last());
    }
}

/// A conversation in two halves has the turns of the first half and then those
/// of the second; so have the texts of its system messages.
pub proof fn law_turns_keep_their_order(first: Seq<Message>, second: Seq<Message>)
    ensures
        adapter::turns(first + second) == adapter::turns(first) + adapter::turns(second),
        adapter::system_texts(first + second) == adapter::system_texts(first)
            + adapter::system_texts(second),
    decreases second.len(),
{
    reveal(Seq::filter);
    let whole = first + second;
    if second.len() == 0 {
        assert(whole =~= first);
        assert(adapter::turns(second) =~= Seq::<Tree>::empty());
        assert(adapter::system_texts(second) =~= Seq::<Seq<char>>::empty());
    } else {
        law_turns_keep_their_order(first, second.drop_last());
        assert(whole.drop_last() =~= first + second.drop_last());
        assert(whole.last() == second.last());
        let last = second.last();
        let others = |message: Message| message.role != Role::System;
        let systems = |message: Message| message.role == Role::System;
        assert(whole.filter(others) == if others(last) {
            whole.drop_last().filter(others).push(last)
        } else {
            whole.drop_last().filter(others)
        });
        assert(whole.filter(systems) == if systems(last) {
            whole.drop_last().filter(systems).push(last)
        } else {
            whole.drop_last().filter(systems)
        });
        assert(adapter::turns(whole) =~= adapter::turns(first) + adapter::turns(second));
        assert(adapter::system_texts(whole) =~= adapter::system_texts(first)
            + adapter::system_texts(second));
    }
}

/// A turn is the user's or the model's.
pub proof fn law_turns_are_of_user_or_model(messages: Seq<Message>, i: int)
    requires
        0 <= i < adapter::turns(messages).len(),
    ensures
        adapter::turns(messages)[i].get("role"@) == Some(Tree::Text("user"@))
            || adapter::turns(messages)[i].get("role"@) == Some(Tree::Text("model"@)),
{
    reveal_strlit("role");
    reveal_strlit("parts");
    assert("role"@.len() == 4);
    assert("parts"@.len() == 5);
}

/// The names of a body's fields differ.
proof fn lemma_body_keys()
    ensures
        "systemInstruction"@ != "contents"@,
        "systemInstruction"@ != "tools"@,
        "systemInstruction"@ != "toolConfig"@,
        "systemInstruction"@ != "generationConfig"@,
        "contents"@ != "tools"@,
        "contents"@ != "toolConfig"@,
        "contents"@ != "generationConfig"@,
        "tools"@ != "toolConfig"@,
        "tools"@ != "generationConfig"@,
        "toolConfig"@ != "generationConfig"@,
{
    reveal_strlit("systemInstruction");
    reveal_strlit("contents");
    reveal_strlit("tools");
    reveal_strlit("toolConfig");
    reveal_strlit("generationConfig");
    assert("systemInstruction"@.len() == 17);
    assert("contents"@.len() == 8);
    assert("tools"@.len() == 5);
    assert("toolConfig"@.len() == 10);
    assert("generationConfig"@.len() == 16);
}

/// The body of a request always has the turns of its conversation, and it has
/// the system prompt if and only if there is a system message.
pub proof fn law_body_has_the_conversation(req: NormalizedChatRequest)
    ensures
        adapter::request_tree(req).get("contents"@) == Some(
            Tree::Array(adapter::turns(req.messages@)),
        ),
        adapter::request_tree(req).get("systemInstruction"@) is Some <==> exists|i: int|
            0 <= i < req.messages@.len() && (#[trigger] req.messages@[i]).role == Role::System,
{
    lemma_body_keys();
    let systems = |message: Message| message.role == Role::System;
    let kept = req.messages@.filter(systems);
    if kept.len() > 0 {
        req.messages@.lemma_filter_contains_rev(systems, kept[0]);
        req.messages@.lemma_filter_pred(systems, 0);
    }
    if exists|i: int|
        0 <= i < req.messages@.len() && (#[trigger] req.messages@[i]).role == Role::System {
        let i = choose|i: int|
            0 <= i < req.messages@.len() && (#[trigger] req.messages@[i]).role == Role::System;
        req.messages@.lemma_filter_contains(systems, i);
    }
}

/// A request without tools says nothing of tools; one with tools declares them
/// and says how they may be called.
pub proof fn law_tools_are_declared_or_unmentioned(req: NormalizedChatRequest)
    ensures
        req.tools@.len() == 0 ==> adapter::request_tree(req).get("tools"@) is None
            && adapter::request_tree(req).get("toolConfig"@) is None,
        req.tools@.len() > 0 ==> adapter::request_tree(req).get("tools"@) == Some(
            adapter::tools_tree(req.tools@),
        ) && adapter::request_tree(req).get("toolConfig"@) == Some(
            adapter::tool_config(req.tool_choice),
        ),
{
    lemma_body_keys();
}

/// A request sets `generationConfig` if and only if it sets a sampling
/// parameter or a response schema.
pub proof fn law_generation_config_is_set_on_demand(req: NormalizedChatRequest)
    ensures
        adapter::request_tree(req).get("generationConfig"@) is Some <==> (req.temperature is Some
            || req.top_p is Some || req.max_completion_tokens is Some || req.seed is Some
            || req.response_schema is Some),
{
    lemma_body_keys();
    let fields = adapter::generation_fields(req);
    if req.response_schema is Some {
        assert(fields.dom().contains("responseSchema"@));
    } else if req.seed is Some {
        assert(fields.dom().contains("seed"@));
    } else if req.max_completion_tokens is Some {
        assert(fields.dom().contains("maxOutputTokens"@));
    } else if req.top_p is Some {
        assert(fields.dom().contains("topP"@));
    } else if req.temperature is Some {
        assert(fields.dom().contains("temperature"@));
    }
}

/// A sampling parameter stands in `generationConfig` as it was given, and is
/// missing there where it was not given.
pub proof fn law_sampling_passes_through(req: NormalizedChatRequest)
    ensures
        Tree::Object(adapter::generation_fields(req)).get("temperature"@) == adapter::float_tree(
            req.temperature,
        ),
        Tree::Object(adapter::generation_fields(req)).get("topP"@) == adapter::float_tree(
            req.top_p,
        ),
        Tree::Object(adapter::generation_fields(req)).get("maxOutputTokens"@) == (
        match req.max_completion_tokens {
            Some(n) => Some(Tree::Number(Number::PosInt(n as u64))),
            None => None,
        }),
        Tree::Object(adapter::generation_fields(req)).get("seed"@) == (match req.seed {
            Some(n) => Some(Tree::Number(normalized::integer_number(n))),
            None => None,
        }),
{
    lemma_generation_keys();
}

/// The names of the generation parameters differ.
proof fn lemma_generation_keys()
    ensures
        "temperature"@ != "topP"@,
        "temperature"@ != "maxOutputTokens"@,
        "temperature"@ != "seed"@,
        "temperature"@ != "responseMimeType"@,
        "temperature"@ != "responseSchema"@,
        "topP"@ != "maxOutputTokens"@,
        "topP"@ != "seed"@,
        "topP"@ != "responseMimeType"@,
        "topP"@ != "responseSchema"@,
        "maxOutputTokens"@ != "seed"@,
        "maxOutputTokens"@ != "responseMimeType"@,
        "maxOutputTokens"@ != "responseSchema"@,
        "seed"@ != "responseMimeType"@,
        "seed"@ != "responseSchema"@,
        "responseMimeType"@ != "responseSchema"@,
{
    reveal_strlit("temperature");
    reveal_strlit("topP");
    reveal_strlit("maxOutputTokens");
    reveal_strlit("seed");
    reveal_strlit("responseMimeType");
    reveal_strlit("responseSchema");
    assert("temperature"@.len() == 11);
    assert("topP"@.len() == 4);
    assert("maxOutputTokens"@.len() == 15);
    assert("seed"@.len() == 4);
    assert("responseMimeType"@.len() == 16);
    assert("responseSchema"@.len() == 14);
    assert("topP"@[0] != "seed"@[0]);
}

/// A response schema makes the reply JSON of that schema; without one nothing
/// is said of the shape of the reply.
pub proof fn law_schema_asks_for_json(req: NormalizedChatRequest)
    ensures
        match req.response_schema {
            Some(schema) => {
                &&& Tree::Object(adapter::generation_fields(req)).get("responseMimeType"@) == Some(
                    Tree::Text("application/json"@),
                )
                &&& Tree::Object(adapter::generation_fields(req)).get("responseSchema"@) == Some(
                    schema@,
                )
            },
            None => {
                &&& Tree::Object(adapter::generation_fields(req)).get("responseMimeType"@) is None
                &&& Tree::Object(adapter::generation_fields(req)).get("responseSchema"@) is None
            },
        },
{
    lemma_generation_keys();
}

/// The model stands in the URL and not in the body: two requests that differ in
/// their model alone have the same body.
pub proof fn law_model_stays_out_of_the_body(
    one: NormalizedChatRequest,
    other: NormalizedChatRequest,
)
    requires
        one == (NormalizedChatRequest { model: one.model, ..other }),
    ensures
        adapter::request_tree(one) == adapter::request_tree(other),
{
}

/// Reading back the parts of a model turn gives what the turn was made of: its
/// text, and its tool calls in their order with their names and arguments.
pub proof fn law_model_turns_read_back(said: Seq<char>, calls: Seq<ToolCall>)
    ensures
        adapter::parts_text(adapter::model_parts(said, calls)) == said,
        adapter::parts_calls(adapter::model_parts(said, calls)).len() == calls.len(),
        forall|i: int|
            0 <= i < calls.len() ==> {
                let read = #[trigger] adapter::parts_calls(adapter::model_parts(said, calls))[i];
                read.name == calls[i].name@ && read.arguments == calls[i].arguments@
            },
    decreases calls.len(),
{
    reveal_strlit("text");
    reveal_strlit("functionCall");
    reveal_strlit("name");
    reveal_strlit("args");
    assert("text"@.len() == 4);
    assert("functionCall"@.len() == 12);
    assert("name"@[0] != "args"@[0]);
    let parts = adapter::model_parts(said, calls);
    if calls.len() == 0 {
        let only = adapter::text_part(if said.len() > 0 {
            said
        } else {
            ""@
        });
        reveal_strlit("");
        assert(parts =~= seq![only]);
        assert(parts.drop_last() =~= Seq::<Tree>::empty());
        assert(adapter::parts_text(parts.drop_last()) =~= Seq::<char>::empty());
        assert(adapter::parts_text(parts) =~= said);
        assert(adapter::parts_calls(parts.drop_last()) =~= Seq::empty());
        assert(adapter::part_text(only) is Some);
    } else {
        let fewer = adapter::model_parts(said, calls.drop_last());
        law_model_turns_read_back(said, calls.drop_last());
        let last = adapter::call_part(calls.last());
        assert(parts.last() == last);
        assert(adapter::part_text(last) is None);
        if said.len() == 0 && calls.len() == 1 {
            assert(parts.drop_last() =~= Seq::<Tree>::empty());
            assert(adapter::parts_text(parts.drop_last()) =~= said);
            assert(adapter::parts_calls(parts.drop_last()) =~= Seq::empty());
        } else {
            assert(parts.drop_last() =~= fewer);
        }
        let before = adapter::parts_calls(parts.drop_last());
        assert(before.len() == calls.len() - 1);
        assert(adapter::parts_calls(parts) == before.push(
            adapter::call_view(last.get("functionCall"@)->0, before.len() + 1),
        ));
        assert forall|i: int| 0 <= i < calls.len() implies {
            let read = #[trigger] adapter::parts_calls(parts)[i];
            read.name == calls[i].name@ && read.arguments == calls[i].arguments@
        } by {
            if i < calls.len() - 1 {
                assert(calls.drop_last()[i] == calls[i]);
                assert(before[i] == adapter::parts_calls(fewer)[i]);
            }
        }
    }
}

// ---------------------------------------------------------------------------
// What stands where in the body
// ---------------------------------------------------------------------------

/// The body holds nothing but the conversation, the system prompt, the tools and
/// the generation parameters.
pub proof fn law_body_holds_nothing_else(req: NormalizedChatRequest, key: Seq<char>)
    requires
        adapter::request_tree(req).get(key) is Some,
    ensures
        key == "systemInstruction"@ || key == "contents"@ || key == "tools"@ || key
            == "toolConfig"@ || key == "generationConfig"@,
{
}

/// Each tool is declared with its name, its description and its parameters, all
/// of them whole, in the order of the tools.
pub proof fn law_tools_are_declared_whole(req: NormalizedChatRequest, i: int)
    requires
        0 <= i < req.tools@.len(),
    ensures
        ({
            &&& adapter::request_tree(req).get("tools"@) matches Some(Tree::Array(tools))
            &&& tools.len() == 1
            &&& has_just(tools[0], set!["functionDeclarations"@])
            &&& tools[0].get("functionDeclarations"@) matches Some(Tree::Array(list))
            &&& list.len() == req.tools@.len()
            &&& has_just(list[i], set!["name"@, "description"@, "parameters"@])
            &&& list[i].get("name"@) == Some(Tree::Text(req.tools@[i].name@))
            &&& list[i].get("description"@) == Some(Tree::Text(req.tools@[i].description@))
            &&& list[i].get("parameters"@) == Some(req.tools@[i].parameters@)
        }),
{
    lemma_body_keys();
    reveal_strlit("name");
    reveal_strlit("description");
    reveal_strlit("parameters");
    assert("name"@.len() == 4);
    assert("description"@.len() == 11);
    assert("parameters"@.len() == 10);
    let entry = adapter::tool_tree(req.tools@[i]);
    assert(entry->Object_0.dom() =~= set!["name"@, "description"@, "parameters"@]);
    let declared = adapter::tools_tree(req.tools@)->Array_0[0];
    assert(declared->Object_0.dom() =~= set!["functionDeclarations"@]);
}

/// With tools, the body says by one word how they may be called: `AUTO`, `ANY` or
/// `NONE`.
pub proof fn law_tool_choice_is_one_word(req: NormalizedChatRequest)
    requires
        req.tools@.len() > 0,
    ensures
        adapter::request_tree(req).get("toolConfig"@) == Some(
            object_of(
                "functionCallingConfig"@,
                object_of(
                    "mode"@,
                    Tree::Text(
                        match req.tool_choice {
                            ToolChoiceWire::Auto => "AUTO"@,
                            ToolChoiceWire::Required => "ANY"@,
                            ToolChoiceWire::Forbidden => "NONE"@,
                        },
                    ),
                ),
            ),
        ),
{
    lemma_body_keys();
}

/// What a body says under a key of `generationConfig`.
pub open spec fn generation_setting(body: Tree, key: Seq<char>) -> Option<Tree> {
    match body.get("generationConfig"@) {
        Some(config) => config.get(key),
        None => None,
    }
}

/// The document of a number with a fraction: the number, or `null` where all
/// bits of its exponent are set.
pub open spec fn fraction_document(number: Float) -> Tree {
    if number.bits / 0x10_0000_0000_0000 % 0x800 == 0x7ff {
        Tree::Null
    } else {
        Tree::Number(Number::Float(number.bits))
    }
}

/// Each sampling parameter and the response schema stand in the body as they
/// were given, each whatever the others are, and where they were not given they
/// are missing. Nothing else stands beside them.
pub proof fn law_generation_settings_stand_in_the_body(req: NormalizedChatRequest, key: Seq<char>)
    ensures
        ({
            let body = adapter::request_tree(req);
            &&& generation_setting(body, "temperature"@) == match req.temperature {
                Some(number) => Some(fraction_document(number)),
                None => None,
            }
            &&& generation_setting(body, "topP"@) == match req.top_p {
                Some(number) => Some(fraction_document(number)),
                None => None,
            }
            &&& generation_setting(body, "maxOutputTokens"@) == match req.max_completion_tokens {
                Some(n) => Some(Tree::Number(Number::PosInt(n as u64))),
                None => None,
            }
            &&& generation_setting(body, "seed"@) == match req.seed {
                Some(n) => Some(
                    Tree::Number(
                        if n >= 0 {
                            Number::PosInt(n as u64)
                        } else {
                            Number::NegInt(n)
                        },
                    ),
                ),
                None => None,
            }
            &&& generation_setting(body, "responseSchema"@) == match req.response_schema {
                Some(schema) => Some(schema@),
                None => None,
            }
            &&& generation_setting(body, "responseMimeType"@) == match req.response_schema {
                Some(_) => Some(Tree::Text("application/json"@)),
                None => None,
            }
            &&& generation_setting(body, key) is Some ==> key == "temperature"@ || key == "topP"@
                || key == "maxOutputTokens"@ || key == "seed"@ || key == "responseSchema"@ || key
                == "responseMimeType"@
        }),
{
    lemma_body_keys();
    lemma_generation_keys();
    let fields = adapter::generation_fields(req);
    if fields == Map::<Seq<char>, Tree>::empty() {
        assert(!fields.dom().contains("temperature"@));
        assert(!fields.dom().contains("topP"@));
        assert(!fields.dom().contains("maxOutputTokens"@));
        assert(!fields.dom().contains("seed"@));
        assert(!fields.dom().contains("responseSchema"@));
    }
}

/// What is not sent has no effect: two requests that differ in their model and
/// in whether they are strict have the same body.
pub proof fn law_unsent_settings_have_no_effect(
    one: NormalizedChatRequest,
    other: NormalizedChatRequest,
)
    requires
        one == (NormalizedChatRequest {
            model: one.model,
            strict_response: one.strict_response,
            ..other
        }),
    ensures
        adapter::request_tree(one) == adapter::request_tree(other),
{
}

/// What a message says where only text can go.
pub open spec fn plain(content: MessageContent) -> Seq<char> {
    match content {
        MessageContent::Text(s) => s@,
        MessageContent::Parts { parts, text } => text@,
    }
}

/// `{"text": s}`
pub open spec fn saying(s: Seq<char>) -> Tree {
    object_of("text"@, Tree::Text(s))
}

/// A part that holds its content itself.
pub open spec fn holding(mime: Seq<char>, data: Seq<char>) -> Tree {
    object_of(
        "inline_data"@,
        object_of_two("mime_type"@, Tree::Text(mime), "data"@, Tree::Text(data)),
    )
}

/// A part that says where its content is.
pub open spec fn pointing(mime: Seq<char>, uri: Seq<char>) -> Tree {
    object_of(
        "file_data"@,
        object_of_two("mime_type"@, Tree::Text(mime), "file_uri"@, Tree::Text(uri)),
    )
}

/// The document of a part of a user message: a text as it is, base64 content
/// with its type, a URL with its type, and of a resource that nobody resolved a
/// notice that names it.
pub open spec fn part_document(part: ContentPart) -> Tree {
    match part {
        ContentPart::Text(s) => saying(s@),
        ContentPart::Image(image) => match image.source {
            ImageSource::Url(uri) => pointing("image/*"@, uri@),
            ImageSource::Base64 { mime_type, data } => holding(mime_type@, data@),
            ImageSource::McpResource(uri) => saying(
                "[unresolved image resource: "@ + uri@ + "]"@,
            ),
        },
        ContentPart::Audio(audio) => {
            let mime = match audio.format {
                AudioFormat::Wav => "audio/wav"@,
                AudioFormat::Other { mime_type } => mime_type@,
            };
            match audio.source {
                AudioSource::Url(uri) => pointing(mime, uri@),
                AudioSource::Base64 { data } => holding(mime, data@),
                AudioSource::McpResource(uri) => saying(
                    "[unresolved audio resource: "@ + uri@ + "]"@,
                ),
            }
        },
        ContentPart::File(file) => match file.source {
            FileSource::Url(uri) => pointing(file.mime_type@, uri@),
            FileSource::Base64 { data } => holding(file.mime_type@, data@),
            FileSource::McpResource(uri) => saying(
                "[unresolved file resource: "@ + uri@ + "]"@,
            ),
        },
    }
}

/// How many messages are no system messages.
pub open spec fn spoken(messages: Seq<Message>) -> nat {
    messages.filter(|message: Message| message.role != Role::System).len()
}

/// The turn of a message in a body, where the message is the `i`th: that after
/// the turns of the messages before it.
pub open spec fn turn_in(body: Tree, messages: Seq<Message>, i: int) -> Tree {
    body.get("contents"@)->0->Array_0[spoken(messages.take(i)) as int]
}

/// A message that is no system message has a turn, and that turn is its own.
proof fn lemma_turn_in(req: NormalizedChatRequest, i: int)
    requires
        0 <= i < req.messages@.len(),
        req.messages@[i].role != Role::System,
    ensures
        adapter::request_tree(req).get("contents"@) matches Some(Tree::Array(contents))
            && contents.len() == spoken(req.messages@) && spoken(req.messages@.take(i))
            < contents.len(),
        turn_in(adapter::request_tree(req), req.messages@, i) == adapter::message_turn(
            req.messages@[i],
        ),
{
    lemma_body_keys();
    let messages = req.messages@;
    let before = messages.take(i);
    let this = seq![messages[i]];
    let after = messages.skip(i + 1);
    assert(messages =~= (before + this) + after);
    law_turns_keep_their_order(before + this, after);
    law_turns_keep_their_order(before, this);
    reveal(Seq::filter);
    assert(this.drop_last() =~= Seq::<Message>::empty());
    let others = |message: Message| message.role != Role::System;
    assert(this.drop_last().filter(others) =~= Seq::empty());
    assert(this.filter(others) =~= this);
    assert(adapter::turns(this) =~= seq![adapter::message_turn(messages[i])]);
    assert(adapter::turns(before).len() == spoken(before));
}

/// The role and the parts of a turn differ.
proof fn lemma_turn_keys()
    ensures
        "role"@ != "parts"@,
{
    reveal_strlit("role");
    reveal_strlit("parts");
    assert("role"@.len() == 4);
    assert("parts"@.len() == 5);
}

/// A turn of a role with these parts.
pub open spec fn turn_of(role: Seq<char>, parts: Seq<Tree>) -> Tree {
    object_of_two("role"@, Tree::Text(role), "parts"@, Tree::Array(parts))
}

/// There are as many turns as messages that are no system messages.
pub proof fn law_contents_are_the_spoken_messages(req: NormalizedChatRequest)
    ensures
        adapter::request_tree(req).get("contents"@) matches Some(Tree::Array(contents))
            && contents.len() == spoken(req.messages@),
{
    lemma_body_keys();
}

/// A user message of plain text is a user turn that says just that text.
pub proof fn law_user_texts_are_said_as_they_are(req: NormalizedChatRequest, i: int, said: String)
    requires
        0 <= i < req.messages@.len(),
        req.messages@[i].role == Role::User,
        req.messages@[i].content == MessageContent::Text(said),
    ensures
        turn_in(adapter::request_tree(req), req.messages@, i) == turn_of(
            "user"@,
            seq![saying(said@)],
        ),
{
    lemma_turn_in(req, i);
}

/// A user message of parts is a user turn with one document for each part, in
/// their order.
pub proof fn law_user_parts_are_sent_one_by_one(req: NormalizedChatRequest, i: int, j: int)
    requires
        0 <= i < req.messages@.len(),
        req.messages@[i].role == Role::User,
        req.messages@[i].content is Parts,
    ensures
        ({
            let turn = turn_in(adapter::request_tree(req), req.messages@, i);
            let parts = req.messages@[i].content->parts@;
            &&& has_just(turn, set!["role"@, "parts"@])
            &&& turn.get("role"@) == Some(Tree::Text("user"@))
            &&& turn.get("parts"@) matches Some(Tree::Array(sent))
            &&& sent.len() == parts.len()
            &&& 0 <= j < parts.len() ==> sent[j] == part_document(parts[j])
        }),
{
    lemma_turn_in(req, i);
    lemma_turn_keys();
    let turn = turn_in(adapter::request_tree(req), req.messages@, i);
    assert(turn->Object_0.dom() =~= set!["role"@, "parts"@]);
}

/// An assistant message is a model turn: its text, unless that is empty, then
/// one function call for each tool call, with its name and its arguments; a
/// turn that would hold nothing says the empty text.
pub proof fn law_assistant_messages_are_model_turns(req: NormalizedChatRequest, i: int, j: int)
    requires
        0 <= i < req.messages@.len(),
        req.messages@[i].role == Role::Assistant,
    ensures
        ({
            let turn = turn_in(adapter::request_tree(req), req.messages@, i);
            let said = plain(req.messages@[i].content);
            let calls = req.messages@[i].tool_calls@;
            let first: int = if said.len() > 0 {
                1
            } else {
                0
            };
            &&& has_just(turn, set!["role"@, "parts"@])
            &&& turn.get("role"@) == Some(Tree::Text("model"@))
            &&& turn.get("parts"@) matches Some(Tree::Array(sent))
            &&& said.len() > 0 ==> sent[0] == saying(said)
            &&& first + calls.len() > 0 ==> sent.len() == first + calls.len()
            &&& first + calls.len() == 0 ==> sent == seq![saying(""@)]
            &&& 0 <= j < calls.len() ==> sent[first + j] == object_of(
                "functionCall"@,
                object_of_two(
                    "name"@,
                    Tree::Text(calls[j].name@),
                    "args"@,
                    calls[j].arguments@,
                ),
            )
        }),
{
    lemma_turn_in(req, i);
    lemma_turn_keys();
    let turn = turn_in(adapter::request_tree(req), req.messages@, i);
    assert(turn->Object_0.dom() =~= set!["role"@, "parts"@]);
}

/// A tool result is a user turn with one function response: under the name of
/// the call that it answers, the document that it spells, or else its raw text
/// under `result`.
pub proof fn law_tool_results_are_function_responses(req: NormalizedChatRequest, i: int)
    requires
        0 <= i < req.messages@.len(),
        req.messages@[i].role == Role::Tool,
    ensures
        ({
            let raw = plain(req.messages@[i].content);
            let name = match req.messages@[i].tool_call_id {
                Some(id) => id@,
                None => "tool_response"@,
            };
            let response = match json::json_from_str(raw) {
                Some(document) => document,
                None => object_of("result"@, Tree::Text(raw)),
            };
            turn_in(adapter::request_tree(req), req.messages@, i) == turn_of(
                "user"@,
                seq![
                    object_of(
                        "functionResponse"@,
                        object_of_two("name"@, Tree::Text(name), "response"@, response),
                    ),
                ],
            )
        }),
{
    lemma_turn_in(req, i);
}

/// The system prompt of a body.
pub open spec fn prompt_in(body: Tree) -> Option<Tree> {
    body.get("systemInstruction"@)
}

/// A body with this system prompt.
pub open spec fn prompting(said: Seq<char>) -> Option<Tree> {
    Some(object_of("parts"@, Tree::Array(seq![saying(said)])))
}

/// A conversation without messages has no system prompt. One more message that
/// is no system message leaves it; a system message sets it, or adds its text
/// to it after a blank line.
pub proof fn law_system_messages_add_up(
    fewer: NormalizedChatRequest,
    more: NormalizedChatRequest,
    message: Message,
    said: Seq<char>,
)
    requires
        more.messages@ == fewer.messages@.push(message),
    ensures
        fewer.messages@.len() == 0 ==> prompt_in(adapter::request_tree(fewer)) is None,
        message.role != Role::System ==> prompt_in(adapter::request_tree(more)) == prompt_in(
            adapter::request_tree(fewer),
        ),
        message.role == Role::System && prompt_in(adapter::request_tree(fewer)) is None
            ==> prompt_in(adapter::request_tree(more)) == prompting(plain(message.content)),
        message.role == Role::System && prompt_in(adapter::request_tree(fewer)) == prompting(said)
            ==> prompt_in(adapter::request_tree(more)) == prompting(
            said + "\n\n"@ + plain(message.content),
        ),
        prompt_in(adapter::request_tree(fewer)) is Some ==> exists|held: Seq<char>|
            prompt_in(adapter::request_tree(fewer)) == #[trigger] prompting(held),
{
    lemma_body_keys();
    reveal(Seq::filter);
    let before = fewer.messages@;
    let after = more.messages@;
    assert(after.drop_last() =~= before);
    assert(after.last() == message);
    let texts = adapter::system_texts(before);
    let systems = |m: Message| m.role == Role::System;
    if message.role == Role::System {
        assert(after.filter(systems) == before.filter(systems).push(message));
        assert(adapter::system_texts(after) =~= texts.push(plain(message.content)));
        assert(texts.push(plain(message.content)).drop_last() =~= texts);
    } else {
        assert(after.filter(systems) == before.filter(systems));
        assert(adapter::system_texts(after) =~= texts);
    }
    if let Some(held) = adapter::system_prompt(before) {
        assert(prompt_in(adapter::request_tree(fewer)) == prompting(held));
        if prompt_in(adapter::request_tree(fewer)) == prompting(said) {
            assert(prompting(held)->0.get("parts"@) == prompting(said)->0.get("parts"@));
            assert(saying(held).get("text"@) == saying(said).get("text"@)) by {
                assert(prompting(held)->0.get("parts"@)->0->Array_0[0] == saying(held));
                assert(prompting(said)->0.get("parts"@)->0->Array_0[0] == saying(said));
            }
            assert(held == said);
        }
    }
}

// ---------------------------------------------------------------------------
// What the encoders return
// ---------------------------------------------------------------------------

/// The declaration of a tool holds its name, its description and its parameters
/// as they are, and nothing else.
pub proof fn law_tool_declarations_are_whole(tool: ToolDef, json: Json)
    requires
        call_ensures(adapter::encode_tool_def, (&tool,), json),
    ensures
        has_just(json@, set!["name"@, "description"@, "parameters"@]),
        json@.get("name"@) == Some(Tree::Text(tool.name@)),
        json@.get("description"@) == Some(Tree::Text(tool.description@)),
        json@.get("parameters"@) == Some(tool.parameters@),
{
    reveal_strlit("name");
    reveal_strlit("description");
    reveal_strlit("parameters");
    assert("name"@.len() == 4);
    assert("description"@.len() == 11);
    assert("parameters"@.len() == 10);
    assert(json@->Object_0.dom() =~= set!["name"@, "description"@, "parameters"@]);
}

/// The parts of a user message are encoded one by one, in their order.
pub proof fn law_parts_are_encoded_one_by_one(parts: &[ContentPart], json: Json, i: int)
    requires
        call_ensures(adapter::encode_user_parts, (parts,), json),
    ensures
        json@ matches Tree::Array(sent) && sent.len() == parts@.len() && (0 <= i < sent.len()
            ==> sent[i] == part_document(parts@[i])),
{
}

/// A tool result is encoded as a user turn with one function response.
pub proof fn law_tool_turns_hold_one_response(
    tool_call_id: Option<String>,
    raw: &str,
    parsed: Option<Json>,
    json: Json,
)
    requires
        call_ensures(adapter::encode_tool_turn, (&tool_call_id, raw, parsed), json),
    ensures
        json@ == turn_of(
            "user"@,
            seq![
                object_of(
                    "functionResponse"@,
                    object_of_two(
                        "name"@,
                        Tree::Text(
                            match tool_call_id {
                                Some(id) => id@,
                                None => "tool_response"@,
                            },
                        ),
                        "response"@,
                        match parsed {
                            Some(document) => document@,
                            None => object_of("result"@, Tree::Text(raw@)),
                        },
                    ),
                ),
            ],
        ),
{
}

/// The body of a request is encoded of its conversation and its settings as the
/// laws on bodies say: its turns and its system prompt are those that the
/// conversation splits into.
pub proof fn law_bodies_are_encoded_of_the_conversation(
    req: NormalizedChatRequest,
    body: Json,
    messages: &[Message],
    split: (Option<String>, Vec<Json>),
    i: int,
)
    requires
        call_ensures(adapter::encode_request, (&req,), body),
        call_ensures(adapter::encode_messages, (messages,), split),
        messages@ == req.messages@,
    ensures
        body@ == adapter::request_tree(req),
        body@.get("contents"@) matches Some(Tree::Array(contents)) && contents.len()
            == split.1@.len() && (0 <= i < contents.len() ==> contents[i] == split.1@[i]@),
        match split.0 {
            Some(prompt) => prompt_in(body@) == prompting(prompt@),
            None => prompt_in(body@) is None,
        },
{
    lemma_body_keys();
    json::lemma_trees_of(split.1@);
}

/// A message says what it was made of.
pub proof fn law_messages_say_what_they_were_made_of(
    said: &str,
    id: &str,
    calls: Vec<ToolCall>,
    parts: Vec<ContentPart>,
    plain_text: String,
    made: (Message, Message, Message, Message, Message),
)
    requires
        call_ensures(Message::system, (said,), made.0),
        call_ensures(Message::user, (said,), made.1),
        call_ensures(Message::user_parts, (parts, plain_text), made.2),
        call_ensures(Message::assistant_text_and_tool_calls, (said, calls), made.3),
        call_ensures(Message::tool_result, (id, said), made.4),
    ensures
        made.0.role == Role::System && made.0.content is Text && plain(made.0.content) == said@,
        made.1.role == Role::User && made.1.content is Text && plain(made.1.content) == said@,
        made.2.role == Role::User && made.2.content == (MessageContent::Parts {
            parts,
            text: plain_text,
        }),
        made.3.role == Role::Assistant && made.3.content is Text && plain(made.3.content) == said@
            && made.3.tool_calls == calls,
        made.4.role == Role::Tool && made.4.content is Text && plain(made.4.content) == said@,
        made.4.tool_call_id matches Some(answered) && answered@ == id@,
        made.0.tool_calls@.len() == 0 && made.1.tool_calls@.len() == 0 && made.2.tool_calls@.len()
            == 0 && made.4.tool_calls@.len() == 0,
        made.0.tool_call_id is None && made.1.tool_call_id is None && made.2.tool_call_id is None
            && made.3.tool_call_id is None,
{
}

/// What is read of a message, of a format and of a number is what they hold.
pub proof fn law_values_are_read_as_they_are(
    content: MessageContent,
    format: AudioFormat,
    number: Float,
    n: i64,
    said: &str,
    mime: &str,
    fraction: Json,
    integer: Json,
)
    requires
        call_ensures(MessageContent::as_text, (&content,), said),
        call_ensures(AudioFormat::mime_type, (&format,), mime),
        call_ensures(Float::to_json, (number,), fraction),
        call_ensures(normalized::integer_json, (n,), integer),
    ensures
        said@ == plain(content),
        match format {
            AudioFormat::Wav => mime@ == "audio/wav"@,
            AudioFormat::Other { mime_type } => mime@ == mime_type@,
        },
        fraction@ == fraction_document(number),
        integer@ == Tree::Number(
            if n >= 0 {
                Number::PosInt(n as u64)
            } else {
                Number::NegInt(n)
            },
        ),
{
}

} // verus!
