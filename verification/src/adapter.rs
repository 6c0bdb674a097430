//! Google Gemini (AI Studio) chat adapter.
//!
//! Translates the gateway's chat requests to Gemini's `generateContent` wire
//! format, and its replies back.
//!
//! - The model stands in the URL, not in the body.
//! - The roles are `user` and `model`. The system prompt rides on
//!   `systemInstruction`; a tool result is a `user` turn whose part is a
//!   `functionResponse`.
//! - Structured output is native: `generationConfig.responseSchema` together
//!   with `responseMimeType: "application/json"`.
//! - The tool choice is `toolConfig.functionCallingConfig.mode`, one of `AUTO`,
//!   `ANY` and `NONE`.
//! - The key travels in the `x-goog-api-key` header.

use crate::http::{
    built_for, endpoint_error, header_text, header_views, is_success, model_url, request_headers,
    unparsed_error, unsendable_key, Endpoint, Header, HttpRequest,
};
use crate::json::{
    array1, json_from_slice, json_from_str, lemma_trees_of, lemma_trees_push, object1, object2,
    text_json, trees_of, with_field, Fields, Json, Number, Tree,
};
use crate::normalized::{
    call_views, integer_json, integer_number, AudioSource, ChatResponseView, ContentPart,
    FileSource, FinishReason, Float, ImageSource, Message, MessageContent, NormalizedChatRequest,
    NormalizedChatResponse, ProviderError, ProviderErrorView, Role, TokenUsage, ToolCall,
    ToolCallView, ToolChoiceWire, ToolDef,
};
use crate::text::{
    chars_of, concat3, decimal, has, joined, mentions, numeral, same, text_from_utf8_lossy,
    utf8_lossy, without_trailing,
};
use std::time::Duration;
use vstd::prelude::*;
use vstd::utf8::*;

verus! {

// ---------------------------------------------------------------------------
// Request encoding
// ---------------------------------------------------------------------------

/// `{"text": s}`
pub open spec fn text_part(s: Seq<char>) -> Tree {
    Tree::Object(map!["text"@ => Tree::Text(s)])
}

/// `{"inline_data": {"mime_type": mime, "data": data}}`
pub open spec fn inline_part(mime: Seq<char>, data: Seq<char>) -> Tree {
    Tree::Object(
        map!["inline_data"@ => Tree::Object(
            map!["mime_type"@ => Tree::Text(mime), "data"@ => Tree::Text(data)],
        )],
    )
}

/// `{"file_data": {"mime_type": mime, "file_uri": uri}}`
pub open spec fn file_part(mime: Seq<char>, uri: Seq<char>) -> Tree {
    Tree::Object(
        map!["file_data"@ => Tree::Object(
            map!["mime_type"@ => Tree::Text(mime), "file_uri"@ => Tree::Text(uri)],
        )],
    )
}

/// What the model is told of a resource that nobody resolved.
pub open spec fn unresolved_part(prefix: Seq<char>, uri: Seq<char>) -> Tree {
    text_part(prefix + uri + "]"@)
}

/// The part that stands for a part of a user message.
pub open spec fn user_part(part: ContentPart) -> Tree {
    match part {
        ContentPart::Text(s) => text_part(s@),
        ContentPart::Image(image) => match image.source {
            ImageSource::Url(uri) => file_part("image/*"@, uri@),
            ImageSource::Base64 { mime_type, data } => inline_part(mime_type@, data@),
            ImageSource::McpResource(uri) => unresolved_part(
                "[unresolved image resource: "@,
                uri@,
            ),
        },
        ContentPart::Audio(audio) => match audio.source {
            AudioSource::Url(uri) => file_part(audio.format.mime(), uri@),
            AudioSource::Base64 { data } => inline_part(audio.format.mime(), data@),
            AudioSource::McpResource(uri) => unresolved_part(
                "[unresolved audio resource: "@,
                uri@,
            ),
        },
        ContentPart::File(file) => match file.source {
            FileSource::Url(uri) => file_part(file.mime_type@, uri@),
            FileSource::Base64 { data } => inline_part(file.mime_type@, data@),
            FileSource::McpResource(uri) => unresolved_part("[unresolved file resource: "@, uri@),
        },
    }
}

/// The parts that stand for the parts of a user message.
pub open spec fn user_parts(parts: Seq<ContentPart>) -> Seq<Tree> {
    parts.map_values(|part: ContentPart| user_part(part))
}

/// `{"role": role, "parts": parts}`
pub open spec fn turn(role: Seq<char>, parts: Seq<Tree>) -> Tree {
    Tree::Object(map!["role"@ => Tree::Text(role), "parts"@ => Tree::Array(parts)])
}

/// `{"functionCall": {"name": .., "args": ..}}`
pub open spec fn call_part(call: ToolCall) -> Tree {
    Tree::Object(
        map!["functionCall"@ => Tree::Object(
            map!["name"@ => Tree::Text(call.name@), "args"@ => call.arguments@],
        )],
    )
}

/// The parts of a model turn: the text, unless it is empty, and then the tool
/// calls; an empty text where there would be no part at all.
pub open spec fn model_parts(text: Seq<char>, calls: Seq<ToolCall>) -> Seq<Tree> {
    let said = if text.len() > 0 {
        seq![text_part(text)]
    } else {
        seq![]
    };
    let parts = said + calls.map_values(|call: ToolCall| call_part(call));
    if parts.len() > 0 {
        parts
    } else {
        seq![text_part(""@)]
    }
}

/// What a tool result is handed over as: the document that it spells, or else
/// `{"result": raw}`.
pub open spec fn tool_payload(raw: Seq<char>, parsed: Option<Tree>) -> Tree {
    match parsed {
        Some(tree) => tree,
        None => Tree::Object(map!["result"@ => Tree::Text(raw)]),
    }
}

/// The name under which a tool result is handed over.
pub open spec fn tool_name(tool_call_id: Option<String>) -> Seq<char> {
    match tool_call_id {
        Some(id) => id@,
        None => "tool_response"@,
    }
}

/// The user turn that hands over a tool result.
pub open spec fn tool_turn(name: Seq<char>, payload: Tree) -> Tree {
    turn(
        "user"@,
        seq![
            Tree::Object(
                map!["functionResponse"@ => Tree::Object(
                    map!["name"@ => Tree::Text(name), "response"@ => payload],
                )],
            ),
        ],
    )
}

/// The turn that stands for a message other than a system message.
pub open spec fn message_turn(message: Message) -> Tree {
    match message.role {
        Role::Assistant => turn(
            "model"@,
            model_parts(message.content.text(), message.tool_calls@),
        ),
        Role::Tool => {
            let raw = message.content.text();
            tool_turn(tool_name(message.tool_call_id), tool_payload(raw, json_from_str(raw)))
        },
        _ => match message.content {
            MessageContent::Text(s) => turn("user"@, seq![text_part(s@)]),
            MessageContent::Parts { parts, text } => turn("user"@, user_parts(parts@)),
        },
    }
}

/// The turns of a conversation: one for each message that is no system
/// message, in their order.
pub open spec fn turns(messages: Seq<Message>) -> Seq<Tree> {
    messages.filter(|message: Message| message.role != Role::System).map_values(
        |message: Message| message_turn(message),
    )
}

/// The texts of the system messages, in their order.
pub open spec fn system_texts(messages: Seq<Message>) -> Seq<Seq<char>> {
    messages.filter(|message: Message| message.role == Role::System).map_values(
        |message: Message| message.content.text(),
    )
}

/// The system prompt, where there is a system message: their texts, a blank
/// line between each two.
pub open spec fn system_prompt(messages: Seq<Message>) -> Option<Seq<char>> {
    if system_texts(messages).len() > 0 {
        Some(joined(system_texts(messages), "\n\n"@))
    } else {
        None
    }
}

/// `{"name": .., "description": .., "parameters": ..}`
pub open spec fn tool_tree(tool: ToolDef) -> Tree {
    Tree::Object(
        map![
            "name"@ => Tree::Text(tool.name@),
            "description"@ => Tree::Text(tool.description@),
            "parameters"@ => tool.parameters@,
        ],
    )
}

/// `[{"functionDeclarations": [..]}]`
pub open spec fn tools_tree(tools: Seq<ToolDef>) -> Tree {
    Tree::Array(
        seq![
            Tree::Object(
                map!["functionDeclarations"@ => Tree::Array(
                    tools.map_values(|tool: ToolDef| tool_tree(tool)),
                )],
            ),
        ],
    )
}

/// The function-calling mode for a tool choice.
pub open spec fn mode_of(choice: ToolChoiceWire) -> Seq<char> {
    match choice {
        ToolChoiceWire::Auto => "AUTO"@,
        ToolChoiceWire::Required => "ANY"@,
        ToolChoiceWire::Forbidden => "NONE"@,
    }
}

/// `{"functionCallingConfig": {"mode": mode}}`
pub open spec fn tool_config(choice: ToolChoiceWire) -> Tree {
    Tree::Object(
        map!["functionCallingConfig"@ => Tree::Object(
            map!["mode"@ => Tree::Text(mode_of(choice))],
        )],
    )
}

/// The document of an optional number.
pub open spec fn float_tree(number: Option<Float>) -> Option<Tree> {
    match number {
        Some(f) => Some(f.tree()),
        None => None,
    }
}

/// The fields of `generationConfig`: each that the request sets.
pub open spec fn generation_fields(req: NormalizedChatRequest) -> Map<Seq<char>, Tree> {
    let fields = with_field(Map::empty(), "temperature"@, float_tree(req.temperature));
    let fields = with_field(fields, "topP"@, float_tree(req.top_p));
    let fields = with_field(
        fields,
        "maxOutputTokens"@,
        match req.max_completion_tokens {
            Some(n) => Some(Tree::Number(Number::PosInt(n as u64))),
            None => None,
        },
    );
    let fields = with_field(
        fields,
        "seed"@,
        match req.seed {
            Some(n) => Some(Tree::Number(integer_number(n))),
            None => None,
        },
    );
    match req.response_schema {
        Some(schema) => fields.insert(
            "responseMimeType"@,
            Tree::Text("application/json"@),
        ).insert("responseSchema"@, schema@),
        None => fields,
    }
}

/// The body of a `generateContent` request.
pub open spec fn request_tree(req: NormalizedChatRequest) -> Tree {
    let body = with_field(
        Map::empty(),
        "systemInstruction"@,
        match system_prompt(req.messages@) {
            Some(s) => Some(
                Tree::Object(map!["parts"@ => Tree::Array(seq![text_part(s)])]),
            ),
            None => None,
        },
    ).insert("contents"@, Tree::Array(turns(req.messages@)));
    let body = if req.tools@.len() > 0 {
        body.insert("tools"@, tools_tree(req.tools@)).insert(
            "toolConfig"@,
            tool_config(req.tool_choice),
        )
    } else {
        body
    };
    Tree::Object(
        if generation_fields(req) == Map::<Seq<char>, Tree>::empty() {
            body
        } else {
            body.insert("generationConfig"@, Tree::Object(generation_fields(req)))
        },
    )
}

fn encode_text_part(s: &str) -> (json: Json)
    ensures
        json@ == text_part(s@),
{
    object1("text", text_json(s))
}

fn encode_inline_part(mime: &str, data: &str) -> (json: Json)
    ensures
        json@ == inline_part(mime@, data@),
{
    object1("inline_data", object2("mime_type", text_json(mime), "data", text_json(data)))
}

fn encode_file_part(mime: &str, uri: &str) -> (json: Json)
    ensures
        json@ == file_part(mime@, uri@),
{
    object1("file_data", object2("mime_type", text_json(mime), "file_uri", text_json(uri)))
}

fn encode_unresolved_part(prefix: &str, uri: &str) -> (json: Json)
    ensures
        json@ == unresolved_part(prefix@, uri@),
{
    encode_text_part(concat3(prefix, uri, "]").as_str())
}

/// Encodes the parts of a user message as Gemini's `parts` array.
///
/// Prose becomes a `text` part, base64 content an `inline_data` part, and a URL
/// a `file_data` part. A gateway resource should have been resolved before; one
/// that was not becomes a text, so that the model gets a notice rather than a
/// malformed request.
pub fn encode_user_parts(parts: &[ContentPart]) -> (json: Json)
    ensures
        json@ == Tree::Array(user_parts(parts@)),
{
    let mut out: Vec<Json> = Vec::new();
    let mut i: usize = 0;
    assert(trees_of(out@) =~= user_parts(parts@).take(0));
    while i < parts.len()
        invariant
            i <= parts@.len(),
            trees_of(out@) == user_parts(parts@).take(i as int),
        decreases parts@.len() - i,
    {
        let json = match &parts[i] {
            ContentPart::Text(s) => encode_text_part(s.as_str()),
            ContentPart::Image(image) => match &image.source {
                ImageSource::Url(uri) => encode_file_part("image/*", uri.as_str()),
                ImageSource::Base64 { mime_type, data } => encode_inline_part(
                    mime_type.as_str(),
                    data.as_str(),
                ),
                ImageSource::McpResource(uri) => encode_unresolved_part(
                    "[unresolved image resource: ",
                    uri.as_str(),
                ),
            },
            ContentPart::Audio(audio) => match &audio.source {
                AudioSource::Url(uri) => encode_file_part(audio.format.mime_type(), uri.as_str()),
                AudioSource::Base64 { data } => encode_inline_part(
                    audio.format.mime_type(),
                    data.as_str(),
                ),
                AudioSource::McpResource(uri) => encode_unresolved_part(
                    "[unresolved audio resource: ",
                    uri.as_str(),
                ),
            },
            ContentPart::File(file) => match &file.source {
                FileSource::Url(uri) => encode_file_part(file.mime_type.as_str(), uri.as_str()),
                FileSource::Base64 { data } => encode_inline_part(
                    file.mime_type.as_str(),
                    data.as_str(),
                ),
                FileSource::McpResource(uri) => encode_unresolved_part(
                    "[unresolved file resource: ",
                    uri.as_str(),
                ),
            },
        };
        proof {
            lemma_trees_push(out@, json);
        }
        out.push(json);
        i = i + 1;
        assert(user_parts(parts@).take(i as int) =~= user_parts(parts@).take(i - 1).push(
            user_part(parts@[i - 1]),
        ));
    }
    assert(user_parts(parts@).take(i as int) =~= user_parts(parts@));
    Json::Array(out)
}

fn encode_turn(role: &str, parts: Json) -> (json: Json)
    requires
        parts@ is Array,
    ensures
        json@ == turn(role@, parts@->Array_0),
{
    object2("role", text_json(role), "parts", parts)
}

/// The model turn for an assistant message.
fn encode_model_turn(text: &str, calls: &Vec<ToolCall>) -> (json: Json)
    ensures
        json@ == turn("model"@, model_parts(text@, calls@)),
{
    let ghost encoded = calls@.map_values(|call: ToolCall| call_part(call));
    let mut parts: Vec<Json> = Vec::new();
    if !text.is_empty() {
        let part = encode_text_part(text);
        proof {
            lemma_trees_push(parts@, part);
        }
        parts.push(part);
    }
    let ghost said = if text@.len() > 0 {
        seq![text_part(text@)]
    } else {
        seq![]
    };
    assert(trees_of(parts@) =~= said);
    let mut i: usize = 0;
    assert(said + encoded.take(0) =~= said);
    while i < calls.len()
        invariant
            i <= calls@.len(),
            encoded == calls@.map_values(|call: ToolCall| call_part(call)),
            trees_of(parts@) == said + encoded.take(i as int),
        decreases calls@.len() - i,
    {
        let part = object1(
            "functionCall",
            object2(
                "name",
                text_json(calls[i].name.as_str()),
                "args",
                calls[i].arguments.clone(),
            ),
        );
        proof {
            lemma_trees_push(parts@, part);
        }
        parts.push(part);
        i = i + 1;
        assert(said + encoded.take(i as int) =~= (said + encoded.take(i - 1)).push(
            call_part(calls@[i - 1]),
        ));
    }
    assert(encoded.take(i as int) =~= encoded);
    proof {
        lemma_trees_of(parts@);
    }
    if parts.len() == 0 {
        let part = encode_text_part("");
        proof {
            lemma_trees_push(parts@, part);
        }
        parts.push(part);
        assert(trees_of(parts@) =~= seq![text_part(""@)]);
    }
    encode_turn("model", Json::Array(parts))
}

/// The user turn for a tool result, given the document that its text spells,
/// where it spells one.
pub fn encode_tool_turn(tool_call_id: &Option<String>, raw: &str, parsed: Option<Json>) -> (json:
    Json)
    ensures
        json@ == tool_turn(
            tool_name(*tool_call_id),
            tool_payload(
                raw@,
                match parsed {
                    Some(document) => Some(document@),
                    None => None,
                },
            ),
        ),
{
    let payload = match parsed {
        Some(document) => document,
        None => object1("result", text_json(raw)),
    };
    let name: &str = match tool_call_id {
        Some(id) => id.as_str(),
        None => "tool_response",
    };
    encode_turn(
        "user",
        array1(
            object1("functionResponse", object2("name", text_json(name), "response", payload)),
        ),
    )
}

/// The turn for a message that is no system message.
fn encode_message(message: &Message) -> (json: Json)
    requires
        message.role != Role::System,
    ensures
        json@ == message_turn(*message),
{
    match message.role {
        Role::Assistant => encode_model_turn(message.content.as_text(), &message.tool_calls),
        Role::Tool => {
            let raw: &str = message.content.as_text();
            encode_tool_turn(&message.tool_call_id, raw, Json::parse_str(raw))
        },
        _ => match &message.content {
            MessageContent::Text(s) => encode_turn("user", array1(encode_text_part(s.as_str()))),
            MessageContent::Parts { parts, text } => encode_turn(
                "user",
                encode_user_parts(parts.as_slice()),
            ),
        },
    }
}

/// How one more message changes the turns and the system texts.
proof fn lemma_one_more_message(messages: Seq<Message>, i: int)
    requires
        0 <= i < messages.len(),
    ensures
        turns(messages.take(i + 1)) == if messages[i].role == Role::System {
            turns(messages.take(i))
        } else {
            turns(messages.take(i)).push(message_turn(messages[i]))
        },
        system_texts(messages.take(i + 1)) == if messages[i].role == Role::System {
            system_texts(messages.take(i)).push(messages[i].content.text())
        } else {
            system_texts(messages.take(i))
        },
{
    reveal(Seq::filter);
    let more = messages.take(i + 1);
    assert(more.drop_last() =~= messages.take(i));
    assert(more.last() == messages[i]);
    let others = |message: Message| message.role != Role::System;
    let systems = |message: Message| message.role == Role::System;
    let kept_others = more.drop_last().filter(others);
    let kept_systems = more.drop_last().filter(systems);
    if messages[i].role == Role::System {
        assert(more.filter(systems) == kept_systems.push(messages[i]));
        assert(more.filter(others) == kept_others);
        assert(system_texts(more) =~= system_texts(messages.take(i)).push(
            messages[i].content.text(),
        ));
    } else {
        assert(more.filter(others) == kept_others.push(messages[i]));
        assert(more.filter(systems) == kept_systems);
        assert(turns(more) =~= turns(messages.take(i)).push(message_turn(messages[i])));
    }
}

/// Splits a conversation: the system prompt, and the turns. System messages
/// are pulled out of the flat list, because Gemini carries them apart.
pub fn encode_messages(messages: &[Message]) -> (encoded: (Option<String>, Vec<Json>))
    ensures
        match encoded.0 {
            Some(s) => system_prompt(messages@) == Some(s@),
            None => system_prompt(messages@) is None,
        },
        trees_of(encoded.1@) == turns(messages@),
{
    let mut system: Option<String> = None;
    let mut out: Vec<Json> = Vec::new();
    let mut i: usize = 0;
    proof {
        reveal(Seq::filter);
        assert(turns(messages@.take(0)) =~= Seq::<Tree>::empty());
        assert(system_texts(messages@.take(0)) =~= Seq::<Seq<char>>::empty());
    }
    while i < messages.len()
        invariant
            i <= messages@.len(),
            match system {
                Some(s) => system_prompt(messages@.take(i as int)) == Some(s@),
                None => system_prompt(messages@.take(i as int)) is None,
            },
            trees_of(out@) == turns(messages@.take(i as int)),
        decreases messages@.len() - i,
    {
        proof {
            lemma_one_more_message(messages@, i as int);
            let texts = system_texts(messages@.take(i as int));
            let text = messages@[i as int].content.text();
            assert(texts.push(text).drop_last() =~= texts);
        }
        let message = &messages[i];
        match message.role {
            Role::System => {
                let text: &str = message.content.as_text();
                system = match system {
                    Some(prompt) => Some(concat3(prompt.as_str(), "\n\n", text)),
                    None => Some(text.to_owned()),
                };
            },
            _ => {
                let json = encode_message(message);
                proof {
                    lemma_trees_push(out@, json);
                }
                out.push(json);
            },
        }
        i = i + 1;
    }
    assert(messages@.take(i as int) =~= messages@);
    (system, out)
}

/// Encodes the declaration of a tool.
pub fn encode_tool_def(tool: &ToolDef) -> (json: Json)
    ensures
        json@ == tool_tree(*tool),
{
    let mut fields = Fields::new();
    fields.insert("name", text_json(tool.name.as_str()));
    fields.insert("description", text_json(tool.description.as_str()));
    fields.insert("parameters", tool.parameters.clone());
    fields.into_json()
}

/// Encodes the declarations of the tools.
fn encode_tools(tools: &Vec<ToolDef>) -> (json: Json)
    ensures
        json@ == tools_tree(tools@),
{
    let ghost encoded = tools@.map_values(|tool: ToolDef| tool_tree(tool));
    let mut out: Vec<Json> = Vec::new();
    let mut i: usize = 0;
    assert(trees_of(out@) =~= encoded.take(0));
    while i < tools.len()
        invariant
            i <= tools@.len(),
            encoded == tools@.map_values(|tool: ToolDef| tool_tree(tool)),
            trees_of(out@) == encoded.take(i as int),
        decreases tools@.len() - i,
    {
        let json = encode_tool_def(&tools[i]);
        proof {
            lemma_trees_push(out@, json);
        }
        out.push(json);
        i = i + 1;
        assert(encoded.take(i as int) =~= encoded.take(i - 1).push(tool_tree(tools@[i - 1])));
    }
    assert(encoded.take(i as int) =~= encoded);
    array1(object1("functionDeclarations", Json::Array(out)))
}

/// The fields of `generationConfig`.
fn encode_generation_fields(req: &NormalizedChatRequest) -> (fields: Fields)
    ensures
        fields@ == generation_fields(*req),
{
    let mut fields = Fields::new();
    if let Some(t) = req.temperature {
        fields.insert("temperature", t.to_json());
    }
    if let Some(p) = req.top_p {
        fields.insert("topP", p.to_json());
    }
    if let Some(n) = req.max_completion_tokens {
        fields.insert("maxOutputTokens", Json::Number(Number::PosInt(n as u64)));
    }
    if let Some(n) = req.seed {
        fields.insert("seed", integer_json(n));
    }
    if let Some(schema) = &req.response_schema {
        fields.insert("responseMimeType", text_json("application/json"));
        fields.insert("responseSchema", schema.clone());
    }
    fields
}

/// Encodes a chat request as the body of a `generateContent` request.
pub fn encode_request(req: &NormalizedChatRequest) -> (body: Json)
    ensures
        body@ == request_tree(*req),
{
    let (system, contents) = encode_messages(req.messages.as_slice());
    let mut body = Fields::new();
    if let Some(s) = system {
        body.insert(
            "systemInstruction",
            object1("parts", array1(encode_text_part(s.as_str()))),
        );
    }
    body.insert("contents", Json::Array(contents));
    if req.tools.len() > 0 {
        body.insert("tools", encode_tools(&req.tools));
        let mode: &str = match req.tool_choice {
            ToolChoiceWire::Auto => "AUTO",
            ToolChoiceWire::Required => "ANY",
            ToolChoiceWire::Forbidden => "NONE",
        };
        body.insert(
            "toolConfig",
            object1("functionCallingConfig", object1("mode", text_json(mode))),
        );
    }
    let fields = encode_generation_fields(req);
    if !fields.is_empty() {
        body.insert("generationConfig", fields.into_json());
    }
    body.into_json()
}

// ---------------------------------------------------------------------------
// Response decoding
// ---------------------------------------------------------------------------

/// The text of a part, where it has one.
pub open spec fn part_text(part: Tree) -> Option<Seq<char>> {
    match part.get("text"@) {
        Some(tree) => tree.as_text(),
        None => None,
    }
}

/// The texts of the parts, one after the other.
pub open spec fn parts_text(parts: Seq<Tree>) -> Seq<char>
    decreases parts.len(),
{
    if parts.len() == 0 {
        Seq::empty()
    } else {
        match part_text(parts.last()) {
            Some(s) => parts_text(parts.drop_last()) + s,
            None => parts_text(parts.drop_last()),
        }
    }
}

/// The identifier of the `n`th tool call. Gemini gives none, so that calls are
/// numbered from one.
pub open spec fn call_id(n: nat) -> Seq<char> {
    "gemini_call_"@ + decimal(n)
}

/// The tool call that a `functionCall` block makes, as the `n`th: a missing
/// name is empty, missing arguments are `null`.
pub open spec fn call_view(block: Tree, n: nat) -> ToolCallView {
    ToolCallView {
        id: call_id(n),
        name: match block.get("name"@) {
            Some(tree) => match tree.as_text() {
                Some(s) => s,
                None => Seq::empty(),
            },
            None => Seq::empty(),
        },
        arguments: match block.get("args"@) {
            Some(tree) => tree,
            None => Tree::Null,
        },
    }
}

/// The tool calls of the parts: one for each part that has a `functionCall`
/// and no text.
pub open spec fn parts_calls(parts: Seq<Tree>) -> Seq<ToolCallView>
    decreases parts.len(),
{
    if parts.len() == 0 {
        Seq::empty()
    } else {
        let before = parts_calls(parts.drop_last());
        match (part_text(parts.last()), parts.last().get("functionCall"@)) {
            (None, Some(block)) => before.push(call_view(block, before.len() + 1)),
            _ => before,
        }
    }
}

/// Why the model stopped, from what it says of that and whether it called
/// tools.
pub open spec fn finish_of(reason: Option<Seq<char>>, called: bool) -> FinishReason {
    if reason == Some("STOP"@) {
        if called {
            FinishReason::ToolCalls
        } else {
            FinishReason::Stop
        }
    } else if reason == Some("MAX_TOKENS"@) {
        FinishReason::Length
    } else if reason == Some("SAFETY"@) {
        FinishReason::ContentFilter
    } else if reason == Some("TOOL_USE"@) {
        FinishReason::ToolCalls
    } else {
        FinishReason::Other
    }
}

/// The `finishReason` of a candidate, where it is a string.
pub open spec fn reason_of(candidate: Tree) -> Option<Seq<char>> {
    match candidate.get("finishReason"@) {
        Some(tree) => tree.as_text(),
        None => None,
    }
}

/// A token count: the low 32 bits of a non-negative integer, else zero.
pub open spec fn count_of(usage: Tree, key: Seq<char>) -> u32 {
    match usage.get(key) {
        Some(tree) => match tree.as_u64() {
            Some(n) => (n % 0x1_0000_0000) as u32,
            None => 0,
        },
        None => 0,
    }
}

/// The token counts of a `usageMetadata` block, where there is one.
pub open spec fn usage_of(usage: Option<Tree>) -> TokenUsage {
    match usage {
        Some(tree) => TokenUsage {
            input_tokens: count_of(tree, "promptTokenCount"@),
            output_tokens: count_of(tree, "candidatesTokenCount"@),
            cached_input_tokens: count_of(tree, "cachedContentTokenCount"@),
        },
        None => TokenUsage::zero(),
    }
}

/// The first candidate of a reply, where it has one.
pub open spec fn first_candidate(reply: Tree) -> Option<Tree> {
    match reply.get("candidates"@) {
        Some(tree) => match tree.as_array() {
            Some(items) => if items.len() > 0 {
                Some(items[0])
            } else {
                None
            },
            None => None,
        },
        None => None,
    }
}

/// The elements of the array under a key, where there is one.
pub open spec fn array_under(tree: Tree, key: Seq<char>) -> Option<Seq<Tree>> {
    match tree.get(key) {
        Some(under) => under.as_array(),
        None => None,
    }
}

/// What a reply of `generateContent` says, or what is missing in it.
pub open spec fn response_of(reply: Tree) -> Result<ChatResponseView, ProviderErrorView> {
    match first_candidate(reply) {
        None => Err(
            ProviderErrorView::Malformed { message: "response has no candidates[0]"@ },
        ),
        Some(candidate) => match candidate.get("content"@) {
            None => Err(ProviderErrorView::Malformed { message: "candidates[0].content missing"@ }),
            Some(content) => match array_under(content, "parts"@) {
                None => Err(
                    ProviderErrorView::Malformed { message: "candidates[0].content.parts missing"@ },
                ),
                Some(parts) => Ok(
                    ChatResponseView {
                        content: parts_text(parts),
                        tool_calls: parts_calls(parts),
                        finish_reason: finish_of(
                            reason_of(candidate),
                            parts_calls(parts).len() > 0,
                        ),
                        usage: usage_of(reply.get("usageMetadata"@)),
                    },
                ),
            },
        },
    }
}

/// The text of a part, where it has one.
pub(crate) fn decode_part_text(part: &Json) -> (found: Option<&str>)
    ensures
        match found {
            Some(s) => part_text(part@) == Some(s@),
            None => part_text(part@) is None,
        },
{
    match part.get("text") {
        Some(json) => json.as_text(),
        None => None,
    }
}

/// The tool call that a `functionCall` block makes, under the identifier `id`.
pub(crate) fn decode_call(block: &Json, id: String, Ghost(n): Ghost<nat>) -> (call: ToolCall)
    requires
        id@ == call_id(n),
    ensures
        call@ == call_view(block@, n),
{
    let name: String = match block.get("name") {
        Some(json) => match json.as_text() {
            Some(s) => s.to_owned(),
            None => String::new(),
        },
        None => String::new(),
    };
    let arguments = match block.get("args") {
        Some(json) => json.clone(),
        None => Json::Null,
    };
    ToolCall { id, name, arguments }
}

/// The `finishReason` of a candidate, where it is a string.
pub(crate) fn decode_reason(candidate: &Json) -> (found: Option<&str>)
    ensures
        match found {
            Some(s) => reason_of(candidate@) == Some(s@),
            None => reason_of(candidate@) is None,
        },
{
    match candidate.get("finishReason") {
        Some(json) => json.as_text(),
        None => None,
    }
}

/// Why the model stopped.
fn decode_finish(reason: Option<&str>, called: bool) -> (finish: FinishReason)
    ensures
        finish == finish_of(
            match reason {
                Some(s) => Some(s@),
                None => None,
            },
            called,
        ),
{
    match reason {
        Some(s) => if same(s, "STOP") {
            if called {
                FinishReason::ToolCalls
            } else {
                FinishReason::Stop
            }
        } else if same(s, "MAX_TOKENS") {
            FinishReason::Length
        } else if same(s, "SAFETY") {
            FinishReason::ContentFilter
        } else if same(s, "TOOL_USE") {
            FinishReason::ToolCalls
        } else {
            FinishReason::Other
        },
        None => FinishReason::Other,
    }
}

/// A token count.
fn decode_count(usage: &Json, key: &str) -> (count: u32)
    ensures
        count == count_of(usage@, key@),
{
    match usage.get(key) {
        Some(json) => match json.as_u64() {
            Some(n) => (n % 0x1_0000_0000) as u32,
            None => 0,
        },
        None => 0,
    }
}

/// The token counts of a `usageMetadata` block, where there is one.
pub fn decode_usage(value: Option<&Json>) -> (usage: TokenUsage)
    ensures
        usage == usage_of(
            match value {
                Some(json) => Some(json@),
                None => None,
            },
        ),
{
    match value {
        Some(json) => TokenUsage {
            input_tokens: decode_count(json, "promptTokenCount"),
            output_tokens: decode_count(json, "candidatesTokenCount"),
            cached_input_tokens: decode_count(json, "cachedContentTokenCount"),
        },
        None => TokenUsage { input_tokens: 0, output_tokens: 0, cached_input_tokens: 0 },
    }
}

/// The first candidate of a reply, where it has one.
pub(crate) fn decode_candidate(reply: &Json) -> (found: Option<&Json>)
    ensures
        match found {
            Some(json) => first_candidate(reply@) == Some(json@),
            None => first_candidate(reply@) is None,
        },
{
    match reply.get("candidates") {
        Some(json) => match json.as_array() {
            Some(items) => {
                proof {
                    lemma_trees_of(items@);
                }
                if items.len() > 0 {
                    Some(&items[0])
                } else {
                    None
                }
            },
            None => None,
        },
        None => None,
    }
}

/// The elements of the array under a key, where there is one.
pub(crate) fn decode_array<'a>(json: &'a Json, key: &str) -> (found: Option<&'a Vec<Json>>)
    ensures
        match found {
            Some(items) => array_under(json@, key@) == Some(trees_of(items@)),
            None => array_under(json@, key@) is None,
        },
{
    match json.get(key) {
        Some(under) => under.as_array(),
        None => None,
    }
}

/// A reply that lacks something.
pub(crate) fn malformed(message: &str) -> (error: ProviderError)
    ensures
        error@ == (ProviderErrorView::Malformed { message: message@ }),
{
    ProviderError::Malformed { message: message.to_owned() }
}

/// Decodes a reply of `generateContent`. Parts of other shapes are skipped.
pub fn decode_response(value: &Json) -> (decoded: Result<NormalizedChatResponse, ProviderError>)
    ensures
        match decoded {
            Ok(response) => response_of(value@) == Ok::<ChatResponseView, ProviderErrorView>(
                response@,
            ),
            Err(error) => response_of(value@) == Err::<ChatResponseView, ProviderErrorView>(error@),
        },
{
    let candidate = match decode_candidate(value) {
        Some(json) => json,
        None => {
            return Err(malformed("response has no candidates[0]"));
        },
    };
    let content = match candidate.get("content") {
        Some(json) => json,
        None => {
            return Err(malformed("candidates[0].content missing"));
        },
    };
    let parts = match decode_array(content, "parts") {
        Some(items) => items,
        None => {
            return Err(malformed("candidates[0].content.parts missing"));
        },
    };
    let ghost trees = trees_of(parts@);
    let mut text: String = String::new();
    let mut tool_calls: Vec<ToolCall> = Vec::new();
    let mut i: usize = 0;
    proof {
        lemma_trees_of(parts@);
        assert(call_views(tool_calls@) =~= parts_calls(trees.take(0)));
    }
    while i < parts.len()
        invariant
            i <= parts@.len(),
            trees == trees_of(parts@),
            trees.len() == parts@.len(),
            forall|k: int| 0 <= k < parts@.len() ==> #[trigger] trees[k] == parts@[k]@,
            text@ == parts_text(trees.take(i as int)),
            call_views(tool_calls@) == parts_calls(trees.take(i as int)),
        decreases parts@.len() - i,
    {
        let part = &parts[i];
        assert(trees[i as int] == part@);
        assert(trees.take(i + 1).drop_last() =~= trees.take(i as int));
        match decode_part_text(part) {
            Some(s) => {
                text.append(s);
            },
            None => {
                if let Some(block) = part.get("functionCall") {
                    let mut id: String = "gemini_call_".to_owned();
                    id.append(numeral(tool_calls.len() as u128 + 1).as_str());
                    let call = decode_call(block, id, Ghost(tool_calls@.len() + 1));
                    proof {
                        assert(call_views(tool_calls@.push(call)) =~= call_views(
                            tool_calls@,
                        ).push(call@));
                    }
                    tool_calls.push(call);
                }
            },
        }
        i = i + 1;
    }
    assert(trees.take(i as int) =~= trees);
    let called: bool = tool_calls.len() > 0;
    let finish_reason = decode_finish(decode_reason(candidate), called);
    let usage = decode_usage(value.get("usageMetadata"));
    Ok(NormalizedChatResponse { content: text, tool_calls, finish_reason, usage })
}

// ---------------------------------------------------------------------------
// Error mapping
// ---------------------------------------------------------------------------

/// How many bytes of a body are quoted at most.
pub const MAX_EXCERPT: usize = 512;

/// A text can be quoted: it is short enough, or a character ends where the
/// quotation would.
pub open spec fn quotable(text: Seq<char>) -> bool {
    encode_utf8(text).len() <= MAX_EXCERPT || is_char_boundary(
        encode_utf8(text),
        MAX_EXCERPT as int,
    )
}

/// What is quoted of a text: all of it, or its first bytes and a note.
pub open spec fn excerpt(text: Seq<char>) -> Seq<char> {
    if encode_utf8(text).len() <= MAX_EXCERPT {
        text
    } else {
        decode_utf8(encode_utf8(text).subrange(0, MAX_EXCERPT as int)) + "\u{2026}[truncated]"@
    }
}

/// Whether a text can be quoted.
pub fn is_quotable(text: &str) -> (yes: bool)
    ensures
        yes == quotable(text@),
{
    text.as_bytes().len() <= MAX_EXCERPT || text.is_char_boundary(MAX_EXCERPT)
}

/// What is quoted of a text.
pub fn text_excerpt(text: &str) -> (quoted: String)
    requires
        quotable(text@),
    ensures
        quoted@ == excerpt(text@),
{
    if text.as_bytes().len() <= MAX_EXCERPT {
        text.to_owned()
    } else {
        let (head, _tail) = text.split_at(MAX_EXCERPT);
        proof {
            encode_utf8_decode_utf8(head@);
        }
        let mut quoted: String = head.to_owned();
        quoted.append("\u{2026}[truncated]");
        quoted
    }
}

/// What is quoted of a body.
pub fn body_excerpt(body: &[u8]) -> (quoted: String)
    requires
        quotable(utf8_lossy(body@)),
    ensures
        quoted@ == excerpt(utf8_lossy(body@)),
{
    text_excerpt(text_from_utf8_lossy(body).as_str())
}

/// A complaint about a conversation that is too long.
pub open spec fn says_too_long(message: Seq<char>) -> bool {
    ||| mentions(message, "maximum number of tokens"@)
    ||| mentions(message, "exceeds"@)
    ||| mentions(message, "context length"@)
}

/// What a status code other than of success is reported as, where `message` is
/// quoted of the body.
pub open spec fn status_error(code: u16, message: Seq<char>) -> ProviderErrorView {
    if code == 429 {
        ProviderErrorView::RateLimited { message }
    } else if code == 401 || code == 403 {
        ProviderErrorView::AuthFailed { message }
    } else if code == 400 && says_too_long(message) {
        ProviderErrorView::ContextLimit { message }
    } else if code == 400 {
        ProviderErrorView::BadRequest { message }
    } else {
        ProviderErrorView::Server { message }
    }
}

/// Reports a status code, where `message` is quoted of the body.
pub fn classify_status(code: u16, message: String) -> (error: ProviderError)
    ensures
        error@ == status_error(code, message@),
{
    if code == 429 {
        return ProviderError::RateLimited { message };
    }
    if code == 401 || code == 403 {
        return ProviderError::AuthFailed { message };
    }
    if code == 400 {
        let chars = chars_of(message.as_str());
        if has(&chars, "maximum number of tokens") || has(&chars, "exceeds") || has(
            &chars,
            "context length",
        ) {
            return ProviderError::ContextLimit { message };
        }
        return ProviderError::BadRequest { message };
    }
    ProviderError::Server { message }
}

/// Reports a status code other than of success.
pub fn map_status_error(status: u16, body: &[u8]) -> (error: ProviderError)
    requires
        quotable(utf8_lossy(body@)),
    ensures
        error@ == status_error(status, excerpt(utf8_lossy(body@))),
{
    classify_status(status, body_excerpt(body))
}

// ---------------------------------------------------------------------------
// The adapter
// ---------------------------------------------------------------------------

/// What a reply amounts to: its status code decides whether its body is a
/// document to decode or a failure to report.
pub open spec fn reply_of(status: u16, body: Seq<u8>) -> Result<
    ChatResponseView,
    ProviderErrorView,
> {
    if !is_success(status) {
        Err(status_error(status, excerpt(utf8_lossy(body))))
    } else {
        match json_from_slice(body) {
            Ok(tree) => response_of(tree),
            Err(text) => Err(
                ProviderErrorView::Malformed { message: "response is not JSON: "@ + text },
            ),
        }
    }
}

/// Google Gemini (AI Studio) chat completions.
pub struct GeminiAdapter {
    endpoint: Endpoint,
}

impl GeminiAdapter {
    /// The base of every URL.
    pub closed spec fn base(self) -> Seq<char> {
        self.endpoint.base()
    }

    /// The key.
    pub closed spec fn key(self) -> Seq<char> {
        self.endpoint.key()
    }

    /// The client.
    pub closed spec fn sender(self) -> reqwest::Client {
        self.endpoint.sender()
    }

    /// The adapter for a client that was built, or for the failure to build
    /// one.
    pub fn with_client(
        client: Result<reqwest::Client, String>,
        base_url: &str,
        api_key: &str,
    ) -> (made: Result<GeminiAdapter, ProviderError>)
        ensures
            match made {
                Ok(adapter) => {
                    &&& endpoint_error(client, base_url@, "gemini base_url is empty"@) is None
                    &&& adapter.base() == without_trailing(base_url@, '/')
                    &&& adapter.key() == api_key@
                    &&& client == Ok::<reqwest::Client, String>(adapter.sender())
                },
                Err(error) => endpoint_error(client, base_url@, "gemini base_url is empty"@)
                    == Some(error@),
            },
    {
        match Endpoint::with_client(client, base_url, api_key, "gemini base_url is empty") {
            Ok(endpoint) => Ok(GeminiAdapter { endpoint }),
            Err(error) => Err(error),
        }
    }

    /// The adapter for a client of its own. Whether there is one rests on the
    /// machine; an empty base is refused in any case.
    pub fn new(base_url: &str, api_key: &str, connect_timeout: Duration) -> (made: Result<
        GeminiAdapter,
        ProviderError,
    >)
        ensures
            match made {
                Ok(adapter) => {
                    &&& base_url@.len() > 0
                    &&& adapter.base() == without_trailing(base_url@, '/')
                    &&& adapter.key() == api_key@
                    &&& built_for(adapter.sender(), connect_timeout)
                },
                Err(error) => exists|client: Result<reqwest::Client, String>| #[trigger]
                    endpoint_error(client, base_url@, "gemini base_url is empty"@) == Some(error@),
            },
    {
        match Endpoint::new(base_url, api_key, connect_timeout, "gemini base_url is empty") {
            Ok(endpoint) => Ok(GeminiAdapter { endpoint }),
            Err(error) => Err(error),
        }
    }

    /// The client to send requests with.
    pub fn client(&self) -> (client: &reqwest::Client)
        ensures
            *client == self.sender(),
    {
        self.endpoint.client()
    }

    /// The provider's name.
    pub fn label(&self) -> (label: &'static str)
        ensures
            label@ == "gemini"@,
    {
        "gemini"
    }

    /// The URL for a whole reply.
    pub fn endpoint_url(&self, model: &str) -> (url: String)
        ensures
            url@ == model_url(self.base(), model@, ":generateContent"@),
    {
        self.endpoint.url(model, ":generateContent")
    }

    /// The URL for a streamed reply: a path of its own, asked for server-sent
    /// events.
    pub fn streaming_endpoint_url(&self, model: &str) -> (url: String)
        ensures
            url@ == model_url(self.base(), model@, ":streamGenerateContent?alt=sse"@),
    {
        self.endpoint.url(model, ":streamGenerateContent?alt=sse")
    }

    /// The headers of every request.
    pub fn build_headers(&self) -> (headers: Result<Vec<Header>, ProviderError>)
        ensures
            match headers {
                Ok(list) => header_text(self.key()) && header_views(list@) == request_headers(
                    self.key(),
                ),
                Err(error) => !header_text(self.key()) && error@ == unsendable_key(),
            },
    {
        self.endpoint.headers()
    }

    /// The request for a whole reply, or for a streamed one.
    pub fn prepare(&self, request: &NormalizedChatRequest, streaming: bool) -> (prepared: Result<
        HttpRequest,
        ProviderError,
    >)
        ensures
            match prepared {
                Ok(http) => {
                    &&& header_text(self.key())
                    &&& http.url@ == model_url(
                        self.base(),
                        request.model@,
                        if streaming {
                            ":streamGenerateContent?alt=sse"@
                        } else {
                            ":generateContent"@
                        },
                    )
                    &&& header_views(http.headers@) == request_headers(self.key())
                    &&& http.body@ == request_tree(*request)
                },
                Err(error) => !header_text(self.key()) && error@ == unsendable_key(),
            },
    {
        let body = encode_request(request);
        let headers = match self.build_headers() {
            Ok(list) => list,
            Err(error) => {
                return Err(error);
            },
        };
        let url: String = if streaming {
            self.streaming_endpoint_url(request.model.as_str())
        } else {
            self.endpoint_url(request.model.as_str())
        };
        Ok(HttpRequest { url, headers, body })
    }

    /// What a reply amounts to; `None` where the body of a failure cannot be
    /// quoted, since a character straddles the place where the quotation would
    /// end.
    pub fn read_reply(&self, status: u16, body: &[u8]) -> (read: Option<
        Result<NormalizedChatResponse, ProviderError>,
    >)
        ensures
            match read {
                Some(Ok(response)) => reply_of(status, body@) == Ok::<
                    ChatResponseView,
                    ProviderErrorView,
                >(response@),
                Some(Err(error)) => reply_of(status, body@) == Err::<
                    ChatResponseView,
                    ProviderErrorView,
                >(error@),
                None => !is_success(status) && !quotable(utf8_lossy(body@)),
            },
            read is None <==> !is_success(status) && !quotable(utf8_lossy(body@)),
    {
        if status < 200 || 299 < status {
            if !is_quotable(text_from_utf8_lossy(body).as_str()) {
                return None;
            }
            return Some(Err(map_status_error(status, body)));
        }
        match Json::parse_slice(body) {
            Ok(value) => Some(decode_response(&value)),
            Err(text) => Some(Err(unparsed_error("response is not JSON: ", text.as_str()))),
        }
    }

    /// How the opening of a streamed reply fails, where its status code reports
    /// that: `Some(None)` where the body cannot be quoted.
    pub fn read_stream_start(&self, status: u16, body: &[u8]) -> (failure: Option<
        Option<ProviderError>,
    >)
        ensures
            match failure {
                None => is_success(status),
                Some(None) => !is_success(status) && !quotable(utf8_lossy(body@)),
                Some(Some(error)) => !is_success(status) && quotable(utf8_lossy(body@)) && error@
                    == status_error(status, excerpt(utf8_lossy(body@))),
            },
    {
        if 200 <= status && status <= 299 {
            return None;
        }
        if !is_quotable(text_from_utf8_lossy(body).as_str()) {
            return Some(None);
        }
        Some(Some(map_status_error(status, body)))
    }
}

} // verus!
