//! Streamed chat replies: server-sent events in, normalized events out.
//!
//! Gemini sends one `data: {..}` event per chunk of the reply. Each holds a
//! partial reply: parts of the first candidate, and at times token counts. A
//! function call always comes whole.

use crate::adapter::{
    array_under, call_view, decode_array, decode_call, decode_candidate, decode_part_text,
    decode_reason, decode_usage, first_candidate, part_text, reason_of, usage_of,
};
use crate::counter::Counter;
use crate::json::{json_from_str, lemma_trees_of, trees_of, Json, Tree};
use crate::normalized::{
    FinishReason, NormalizedStreamEvent, ProviderError, ProviderErrorView, StreamEventView,
    TokenUsage,
};
use crate::text::{
    char_index, chars_of, find_char, matches_at, occurs_at, same, text_from_utf8, text_of, trimmed,
    trims_to, without_leading,
};
use vstd::prelude::*;
use vstd::utf8::*;

verus! {

/// `\r\n\r\n`
pub open spec fn crlf_twice() -> Seq<u8> {
    seq![13u8, 10u8, 13u8, 10u8]
}

/// `\n\n`
pub open spec fn lf_twice() -> Seq<u8> {
    seq![10u8, 10u8]
}

/// The first position from `from` on at which `needle` stands in `buf`.
pub open spec fn first_from(buf: Seq<u8>, needle: Seq<u8>, from: int) -> Option<int>
    decreases buf.len() - from,
{
    if from >= buf.len() {
        None
    } else if occurs_at(buf, needle, from) {
        Some(from)
    } else {
        first_from(buf, needle, from + 1)
    }
}

/// Where the first event in a buffer ends: at the first `\r\n\r\n`, or, where
/// there is none, at the first `\n\n`.
pub open spec fn event_boundary(buf: Seq<u8>) -> Option<int> {
    match first_from(buf, crlf_twice(), 0) {
        Some(at) => Some(at),
        None => first_from(buf, lf_twice(), 0),
    }
}

/// How many bytes at the start of a buffer mark the end of an event.
pub open spec fn boundary_len(buf: Seq<u8>) -> int {
    if occurs_at(buf, crlf_twice(), 0) {
        4
    } else if occurs_at(buf, lf_twice(), 0) {
        2
    } else {
        0
    }
}

/// What `first_from` finds is the first occurrence; where it finds nothing,
/// there is none.
pub proof fn lemma_first_from(buf: Seq<u8>, needle: Seq<u8>, from: int)
    requires
        0 <= from,
        needle.len() > 0,
    ensures
        match first_from(buf, needle, from) {
            Some(at) => {
                &&& from <= at
                &&& occurs_at(buf, needle, at)
                &&& forall|j: int| from <= j < at ==> !occurs_at(buf, needle, j)
            },
            None => forall|j: int| from <= j ==> !occurs_at(buf, needle, j),
        },
    decreases buf.len() - from,
{
    if from < buf.len() && !occurs_at(buf, needle, from) {
        lemma_first_from(buf, needle, from + 1);
    }
}

/// Where an event ends, the mark of its end stands.
pub proof fn lemma_boundary(buf: Seq<u8>)
    ensures
        event_boundary(buf) matches Some(at) ==> 0 <= at <= buf.len() && boundary_len(buf.skip(at))
            >= 2 && at + boundary_len(buf.skip(at)) <= buf.len(),
{
    lemma_first_from(buf, crlf_twice(), 0);
    lemma_first_from(buf, lf_twice(), 0);
    if let Some(at) = event_boundary(buf) {
        if occurs_at(buf, crlf_twice(), at) {
            assert(buf.skip(at).subrange(0, 4) =~= buf.subrange(at, at + 4));
        } else {
            assert(occurs_at(buf, lf_twice(), at));
            assert(buf.skip(at).subrange(0, 2) =~= buf.subrange(at, at + 2));
        }
    }
}

/// Whether `\r\n\r\n` stands at a position.
fn crlf_twice_at(buf: &[u8], at: usize) -> (found: bool)
    requires
        at <= buf@.len(),
    ensures
        found == occurs_at(buf@, crlf_twice(), at as int),
{
    if buf.len() - at < 4 {
        return false;
    }
    let ghost four = buf@.subrange(at as int, at + 4);
    let found: bool = buf[at] == 13 && buf[at + 1] == 10 && buf[at + 2] == 13 && buf[at + 3] == 10;
    proof {
        assert(four[0] == buf@[at as int] && four[1] == buf@[at + 1] && four[2] == buf@[at + 2]
            && four[3] == buf@[at + 3]);
        if found {
            assert(four =~= crlf_twice());
        }
    }
    found
}

/// Whether `\n\n` stands at a position.
fn lf_twice_at(buf: &[u8], at: usize) -> (found: bool)
    requires
        at <= buf@.len(),
    ensures
        found == occurs_at(buf@, lf_twice(), at as int),
{
    if buf.len() - at < 2 {
        return false;
    }
    let ghost two = buf@.subrange(at as int, at + 2);
    let found: bool = buf[at] == 10 && buf[at + 1] == 10;
    proof {
        assert(two[0] == buf@[at as int] && two[1] == buf@[at + 1]);
        if found {
            assert(two =~= lf_twice());
        }
    }
    found
}

/// Where the first event in a buffer ends.
pub fn find_event_boundary(buf: &[u8]) -> (found: Option<usize>)
    ensures
        match found {
            Some(at) => event_boundary(buf@) == Some(at as int),
            None => event_boundary(buf@) is None,
        },
{
    let end: usize = buf.len();
    let mut i: usize = 0;
    while i < end
        invariant
            i <= end == buf@.len(),
            first_from(buf@, crlf_twice(), i as int) == first_from(buf@, crlf_twice(), 0),
        decreases end - i,
    {
        if crlf_twice_at(buf, i) {
            return Some(i);
        }
        i = i + 1;
    }
    let mut k: usize = 0;
    while k < end
        invariant
            k <= end == buf@.len(),
            first_from(buf@, crlf_twice(), 0) is None,
            first_from(buf@, lf_twice(), k as int) == first_from(buf@, lf_twice(), 0),
        decreases end - k,
    {
        if lf_twice_at(buf, k) {
            return Some(k);
        }
        k = k + 1;
    }
    None
}

/// Removes the mark of an event's end from the start of a buffer, and says how
/// many bytes that were.
pub fn strip_boundary_prefix(buf: &mut Vec<u8>) -> (removed: usize)
    ensures
        removed == boundary_len(old(buf)@),
        final(buf)@ == old(buf)@.skip(removed as int),
{
    if crlf_twice_at(buf.as_slice(), 0) {
        *buf = buf.split_off(4);
        4
    } else if lf_twice_at(buf.as_slice(), 0) {
        *buf = buf.split_off(2);
        2
    } else {
        assert(buf@.skip(0) =~= buf@);
        0
    }
}

/// Where the first line of a text ends.
pub open spec fn line_end(text: Seq<char>) -> nat {
    char_index(text, '\n')
}

/// The first line of a text, without its end: a line ends with `\n` or
/// `\r\n`.
pub open spec fn first_line(text: Seq<char>) -> Seq<char> {
    let end = line_end(text) as int;
    if end < text.len() && end > 0 && text[end - 1] == '\r' {
        text.take(end - 1)
    } else {
        text.take(end)
    }
}

/// The data of an event: what follows `data:` and spaces on the first line
/// that starts with `data:`.
pub open spec fn event_data(text: Seq<char>) -> Option<Seq<char>>
    decreases text.len(),
{
    if text.len() == 0 {
        None
    } else if occurs_at(first_line(text), "data:"@, 0) {
        Some(without_leading(first_line(text).skip(5), ' '))
    } else if line_end(text) < text.len() {
        event_data(text.skip(line_end(text) as int + 1))
    } else {
        None
    }
}

/// The data of an event.
pub fn find_event_data(text: &str) -> (data: Option<String>)
    ensures
        match data {
            Some(s) => event_data(text@) == Some(s@),
            None => event_data(text@) is None,
        },
{
    let chars = chars_of(text);
    let mark = chars_of("data:");
    proof {
        reveal_strlit("data:");
    }
    let mut start: usize = 0;
    assert(chars@.skip(0) =~= chars@);
    while start < chars.len()
        invariant
            start <= chars@.len(),
            chars@ == text@,
            mark@ == "data:"@,
            mark@.len() == 5,
            event_data(chars@.skip(start as int)) == event_data(text@),
        decreases chars@.len() - start,
    {
        let ghost rest = chars@.skip(start as int);
        let end: usize = find_char(&chars, start, '\n');
        let stop: usize = if end < chars.len() && end > start && chars[end - 1] == '\r' {
            end - 1
        } else {
            end
        };
        let ghost line = first_line(rest);
        assert(line =~= chars@.subrange(start as int, stop as int));
        if stop - start >= 5 && matches_at(&chars, &mark, start) {
            assert(line.subrange(0, 5) =~= chars@.subrange(start as int, start + 5));
            let mut from: usize = start + 5;
            assert(chars@.subrange(from as int, stop as int) =~= line.skip(5));
            while from < stop && chars[from] == ' '
                invariant
                    from <= stop <= chars@.len(),
                    without_leading(chars@.subrange(from as int, stop as int), ' ')
                        == without_leading(line.skip(5), ' '),
                decreases stop - from,
            {
                assert(chars@.subrange(from as int, stop as int).skip(1) =~= chars@.subrange(
                    from + 1,
                    stop as int,
                ));
                from = from + 1;
            }
            return Some(text_of(&chars, from, stop));
        }
        assert(!occurs_at(line, "data:"@, 0)) by {
            if line.len() >= 5 {
                assert(line.subrange(0, 5) =~= chars@.subrange(start as int, start + 5));
            }
        }
        if end == chars.len() {
            return None;
        }
        assert(rest.skip(line_end(rest) as int + 1) =~= chars@.skip(end + 1));
        start = end + 1;
    }
    None
}

// ---------------------------------------------------------------------------
// What an event does
// ---------------------------------------------------------------------------

/// What the bytes of an event amount to.
pub enum Payload {
    /// Nothing that concerns the reply.
    Nothing,
    /// The end of the reply.
    Done,
    /// A partial reply.
    Document(Tree),
}

/// What the bytes of an event amount to. Bytes that are no UTF-8, an event
/// without data and data that are no JSON amount to nothing.
pub open spec fn payload_of(event: Seq<u8>) -> Payload {
    if !valid_utf8(event) {
        Payload::Nothing
    } else {
        match event_data(decode_utf8(event)) {
            None => Payload::Nothing,
            Some(data) => if trimmed(data) == "[DONE]"@ {
                Payload::Done
            } else {
                match json_from_str(data) {
                    Some(tree) => Payload::Document(tree),
                    None => Payload::Nothing,
                }
            },
        }
    }
}

/// Where a streamed reply stands.
pub struct StreamModel {
    /// The bytes that belong to no complete event yet.
    pub buffer: Seq<u8>,
    /// How many tool calls came.
    pub calls: nat,
    /// Why the model stopped, as far as it has said.
    pub finish: Option<FinishReason>,
    /// The token counts that came last.
    pub usage: TokenUsage,
    /// Whether the reply has ended.
    pub closed: bool,
}

/// Why the model stopped, as it says so in a stream.
pub open spec fn stream_finish_of(reason: Seq<char>, called: bool) -> FinishReason {
    if reason == "STOP"@ {
        if called {
            FinishReason::ToolCalls
        } else {
            FinishReason::Stop
        }
    } else if reason == "MAX_TOKENS"@ {
        FinishReason::Length
    } else if reason == "SAFETY"@ {
        FinishReason::ContentFilter
    } else {
        FinishReason::Other
    }
}

/// A part calls a tool where it has a `functionCall` and no text, or an empty
/// one.
pub open spec fn part_calls(part: Tree) -> bool {
    &&& part.get("functionCall"@) is Some
    &&& part_text(part) matches Some(s) ==> s.len() == 0
}

/// The events of the parts of a partial reply, where `calls` tool calls came
/// before: the texts that are not empty, and the tool calls.
pub open spec fn part_events(parts: Seq<Tree>, calls: nat) -> Seq<StreamEventView>
    decreases parts.len(),
{
    if parts.len() == 0 {
        Seq::empty()
    } else {
        let before = part_events(parts.drop_last(), calls);
        let part = parts.last();
        if part_calls(part) {
            before.push(
                StreamEventView::ToolCallReady(
                    call_view(
                        part.get("functionCall"@)->0,
                        calls + count_calls(parts.drop_last()) + 1,
                    ),
                ),
            )
        } else {
            match part_text(part) {
                Some(s) => if s.len() > 0 {
                    before.push(StreamEventView::TextDelta(s))
                } else {
                    before
                },
                None => before,
            }
        }
    }
}

/// How many of the parts call tools.
pub open spec fn count_calls(parts: Seq<Tree>) -> nat
    decreases parts.len(),
{
    if parts.len() == 0 {
        0
    } else if part_calls(parts.last()) {
        count_calls(parts.drop_last()) + 1
    } else {
        count_calls(parts.drop_last())
    }
}

/// The parts of a candidate; none where it has no array of parts.
pub open spec fn candidate_parts(candidate: Tree) -> Seq<Tree> {
    match candidate.get("content"@) {
        Some(content) => match array_under(content, "parts"@) {
            Some(parts) => parts,
            None => Seq::empty(),
        },
        None => Seq::empty(),
    }
}

/// What a partial reply does: where the reply stands then, and its events.
pub open spec fn applied(s: StreamModel, event: Tree) -> (StreamModel, Seq<StreamEventView>) {
    let counted = match event.get("usageMetadata"@) {
        Some(usage) => StreamModel { usage: usage_of(Some(usage)), ..s },
        None => s,
    };
    match first_candidate(event) {
        None => (counted, Seq::empty()),
        Some(candidate) => {
            let parts = candidate_parts(candidate);
            let calls = s.calls + count_calls(parts);
            (
                StreamModel {
                    calls,
                    finish: match reason_of(candidate) {
                        Some(reason) => Some(stream_finish_of(reason, calls > 0)),
                        None => s.finish,
                    },
                    ..counted
                },
                part_events(parts, s.calls),
            )
        },
    }
}

/// The last event of a reply.
pub open spec fn finish_event(s: StreamModel) -> StreamEventView {
    StreamEventView::Finish {
        reason: match s.finish {
            Some(reason) => reason,
            None => FinishReason::Other,
        },
        usage: s.usage,
    }
}

/// What the bytes of an event do.
pub open spec fn taken(s: StreamModel, event: Seq<u8>) -> (StreamModel, Seq<StreamEventView>) {
    match payload_of(event) {
        Payload::Nothing => (s, Seq::empty()),
        Payload::Done => (StreamModel { closed: true, ..s }, seq![finish_event(s)]),
        Payload::Document(tree) => applied(s, tree),
    }
}

/// What the complete events in the buffer do, one after the other, until the
/// reply ends.
pub open spec fn drained(s: StreamModel) -> (StreamModel, Seq<StreamEventView>)
    decreases s.buffer.len(),
{
    match event_boundary(s.buffer) {
        None => (s, Seq::empty()),
        Some(at) => if s.closed {
            (s, Seq::empty())
        } else {
            proof {
                lemma_boundary(s.buffer);
            }
            let after = s.buffer.skip(at);
            let (next, events) = taken(
                StreamModel { buffer: after.skip(boundary_len(after)), ..s },
                s.buffer.take(at),
            );
            let (last, more) = drained(next);
            (last, events + more)
        },
    }
}

/// What more bytes do to a reply that has not ended.
pub open spec fn fed(s: StreamModel, bytes: Seq<u8>) -> (StreamModel, Seq<StreamEventView>) {
    drained(StreamModel { buffer: s.buffer + bytes, ..s })
}

/// What the transport hands over.
#[derive(Debug)]
pub enum StreamInput {
    /// More bytes.
    Chunk(Vec<u8>),
    /// Reading failed, for this reason.
    ReadError(String),
    /// The upstream closed the connection.
    End,
}

/// What the transport handed over does: more bytes complete events, a failure
/// to read is reported and ends the reply, and the end of the connection ends
/// it as the end mark does. After its end nothing comes any more.
pub open spec fn stepped(s: StreamModel, input: StreamInput) -> (
    StreamModel,
    Seq<Result<StreamEventView, ProviderErrorView>>,
) {
    if s.closed {
        (s, Seq::empty())
    } else {
        match input {
            StreamInput::Chunk(bytes) => {
                let (next, events) = fed(s, bytes@);
                (next, oks(events))
            },
            StreamInput::ReadError(text) => (
                StreamModel { closed: true, ..s },
                seq![
                    Err(ProviderErrorView::Network { message: "read sse chunk: "@ + text@ }),
                ],
            ),
            StreamInput::End => (StreamModel { closed: true, ..s }, seq![Ok(finish_event(s))]),
        }
    }
}

/// Events as items of a stream that can fail.
pub open spec fn oks(events: Seq<StreamEventView>) -> Seq<
    Result<StreamEventView, ProviderErrorView>,
> {
    events.map_values(|event: StreamEventView| Ok::<StreamEventView, ProviderErrorView>(event))
}

/// What a list of events says.
pub open spec fn event_views(events: Seq<NormalizedStreamEvent>) -> Seq<StreamEventView> {
    events.map_values(|event: NormalizedStreamEvent| event@)
}

/// What an item of a stream says.
pub open spec fn item_view(item: Result<NormalizedStreamEvent, ProviderError>) -> Result<
    StreamEventView,
    ProviderErrorView,
> {
    match item {
        Ok(event) => Ok(event@),
        Err(error) => Err(error@),
    }
}

/// What a list of items says.
pub open spec fn item_views(items: Seq<Result<NormalizedStreamEvent, ProviderError>>) -> Seq<
    Result<StreamEventView, ProviderErrorView>,
> {
    items.map_values(|item: Result<NormalizedStreamEvent, ProviderError>| item_view(item))
}

/// Where a streamed reply stands.
#[derive(Debug)]
pub struct StreamDecoder {
    buffer: Vec<u8>,
    calls: Counter,
    finish: Option<FinishReason>,
    usage: TokenUsage,
    closed: bool,
}

impl View for StreamDecoder {
    type V = StreamModel;

    closed spec fn view(&self) -> StreamModel {
        StreamModel {
            buffer: self.buffer@,
            calls: self.calls@,
            finish: self.finish,
            usage: self.usage,
            closed: self.closed,
        }
    }
}

/// Why the model stopped, as it says so in a stream.
fn decode_stream_finish(reason: &str, called: bool) -> (finish: FinishReason)
    ensures
        finish == stream_finish_of(reason@, called),
{
    if same(reason, "STOP") {
        if called {
            FinishReason::ToolCalls
        } else {
            FinishReason::Stop
        }
    } else if same(reason, "MAX_TOKENS") {
        FinishReason::Length
    } else if same(reason, "SAFETY") {
        FinishReason::ContentFilter
    } else {
        FinishReason::Other
    }
}

impl StreamDecoder {
    /// A reply of which nothing has come yet.
    pub fn new() -> (decoder: StreamDecoder)
        ensures
            decoder@ == (StreamModel {
                buffer: Seq::empty(),
                calls: 0,
                finish: None,
                usage: TokenUsage::zero(),
                closed: false,
            }),
    {
        StreamDecoder {
            buffer: Vec::new(),
            calls: Counter::new(),
            finish: None,
            usage: TokenUsage { input_tokens: 0, output_tokens: 0, cached_input_tokens: 0 },
            closed: false,
        }
    }

    /// Whether the reply has ended.
    pub fn is_closed(&self) -> (closed: bool)
        ensures
            closed == self@.closed,
    {
        self.closed
    }

    /// Takes in the parts of a partial reply.
    fn take_parts(&mut self, parts: &Vec<Json>) -> (events: Vec<NormalizedStreamEvent>)
        ensures
            final(self)@ == (StreamModel {
                calls: old(self)@.calls + count_calls(trees_of(parts@)),
                ..old(self)@
            }),
            event_views(events@) == part_events(trees_of(parts@), old(self)@.calls),
    {
        let ghost trees = trees_of(parts@);
        let ghost before = self@;
        let mut events: Vec<NormalizedStreamEvent> = Vec::new();
        let mut i: usize = 0;
        proof {
            lemma_trees_of(parts@);
            assert(event_views(events@) =~= part_events(trees.take(0), before.calls));
        }
        while i < parts.len()
            invariant
                i <= parts@.len(),
                trees == trees_of(parts@),
                trees.len() == parts@.len(),
                forall|k: int| 0 <= k < parts@.len() ==> #[trigger] trees[k] == parts@[k]@,
                self@ == (StreamModel {
                    calls: before.calls + count_calls(trees.take(i as int)),
                    ..before
                }),
                event_views(events@) == part_events(trees.take(i as int), before.calls),
            decreases parts@.len() - i,
        {
            let part = &parts[i];
            assert(trees[i as int] == part@);
            assert(trees.take(i + 1).drop_last() =~= trees.take(i as int));
            let said: Option<&str> = decode_part_text(part);
            let silent: bool = match said {
                Some(s) => s.is_empty(),
                None => true,
            };
            if silent {
                if let Some(block) = part.get("functionCall") {
                    self.calls.increment();
                    let mut id: String = "gemini_call_".to_owned();
                    id.append(self.calls.numeral().as_str());
                    let call = decode_call(block, id, Ghost(self.calls@));
                    let event = NormalizedStreamEvent::ToolCallReady(call);
                    proof {
                        assert(event_views(events@.push(event)) =~= event_views(events@).push(
                            event@,
                        ));
                    }
                    events.push(event);
                }
            } else if let Some(s) = said {
                let event = NormalizedStreamEvent::TextDelta(s.to_owned());
                proof {
                    assert(event_views(events@.push(event)) =~= event_views(events@).push(event@));
                }
                events.push(event);
            }
            i = i + 1;
        }
        assert(trees.take(i as int) =~= trees);
        events
    }

    /// Takes in a partial reply.
    pub fn apply(&mut self, event: &Json) -> (events: Vec<NormalizedStreamEvent>)
        ensures
            (final(self)@, event_views(events@)) == applied(old(self)@, event@),
    {
        if let Some(usage) = event.get("usageMetadata") {
            self.usage = decode_usage(Some(usage));
        }
        let mut events: Vec<NormalizedStreamEvent> = Vec::new();
        proof {
            assert(event_views(events@) =~= Seq::<StreamEventView>::empty());
        }
        if let Some(candidate) = decode_candidate(event) {
            let content: Option<&Json> = candidate.get("content");
            let parts: Option<&Vec<Json>> = match content {
                Some(json) => decode_array(json, "parts"),
                None => None,
            };
            if let Some(found) = parts {
                events = self.take_parts(found);
            }
            if let Some(reason) = decode_reason(candidate) {
                self.finish = Some(decode_stream_finish(reason, !self.calls.is_zero()));
            }
        }
        events
    }

    /// The last event of the reply.
    fn last_event(&self) -> (event: NormalizedStreamEvent)
        ensures
            event@ == finish_event(self@),
    {
        NormalizedStreamEvent::Finish {
            reason: match self.finish {
                Some(reason) => reason,
                None => FinishReason::Other,
            },
            usage: self.usage,
        }
    }

    /// Takes in the bytes of an event.
    fn take_event(&mut self, event: &[u8]) -> (events: Vec<NormalizedStreamEvent>)
        ensures
            (final(self)@, event_views(events@)) == taken(old(self)@, event@),
    {
        let mut events: Vec<NormalizedStreamEvent> = Vec::new();
        proof {
            assert(event_views(events@) =~= Seq::<StreamEventView>::empty());
        }
        if let Some(text) = text_from_utf8(event) {
            if let Some(data) = find_event_data(text) {
                if trims_to(data.as_str(), "[DONE]") {
                    let last = self.last_event();
                    proof {
                        assert(event_views(events@.push(last)) =~= seq![last@]);
                    }
                    events.push(last);
                    self.closed = true;
                } else if let Some(document) = Json::parse_str(data.as_str()) {
                    events = self.apply(&document);
                }
            }
        }
        events
    }

    /// Takes in the complete events of the buffer.
    fn drain(&mut self) -> (items: Vec<Result<NormalizedStreamEvent, ProviderError>>)
        requires
            !old(self)@.closed,
        ensures
            (final(self)@, item_views(items@)) == (
                drained(old(self)@).0,
                oks(drained(old(self)@).1),
            ),
    {
        let ghost start = self@;
        let mut items: Vec<Result<NormalizedStreamEvent, ProviderError>> = Vec::new();
        proof {
            assert(item_views(items@) + oks(drained(start).1) =~= oks(drained(start).1));
        }
        while !self.closed
            invariant
                drained(self@).0 == drained(start).0,
                item_views(items@) + oks(drained(self@).1) == oks(drained(start).1),
            ensures
                drained(self@) == (self@, Seq::<StreamEventView>::empty()),
            decreases self@.buffer.len(),
        {
            match find_event_boundary(self.buffer.as_slice()) {
                Some(at) => {
                    proof {
                        lemma_boundary(self@.buffer);
                    }
                    let ghost here = self@;
                    let mut rest: Vec<u8> = self.buffer.split_off(at);
                    let _removed: usize = strip_boundary_prefix(&mut rest);
                    let mut event: Vec<u8> = Vec::new();
                    std::mem::swap(&mut event, &mut self.buffer);
                    self.buffer = rest;
                    let events = self.take_event(event.as_slice());
                    let ghost next = self@;
                    let ghost came = event_views(events@);
                    let ghost held = item_views(items@);
                    proof {
                        assert(event@ =~= here.buffer.take(at as int));
                        assert(drained(here).1 == came + drained(next).1);
                        assert(oks(came + drained(next).1) =~= oks(came) + oks(drained(next).1));
                    }
                    push_oks(&mut items, events);
                    proof {
                        assert(held + (oks(came) + oks(drained(next).1)) =~= (held + oks(came))
                            + oks(drained(next).1));
                    }
                },
                None => {
                    break;
                },
            }
        }
        proof {
            assert(oks(Seq::<StreamEventView>::empty()) =~= Seq::empty());
            assert(item_views(items@) + Seq::empty() =~= item_views(items@));
        }
        items
    }

    /// Takes in what the transport hands over, and says what to pass on.
    pub fn step(&mut self, input: StreamInput) -> (items: Vec<
        Result<NormalizedStreamEvent, ProviderError>,
    >)
        ensures
            (final(self)@, item_views(items@)) == stepped(old(self)@, input),
    {
        let mut items: Vec<Result<NormalizedStreamEvent, ProviderError>> = Vec::new();
        proof {
            assert(item_views(items@) =~= Seq::empty());
        }
        if self.closed {
            return items;
        }
        match input {
            StreamInput::Chunk(bytes) => {
                let mut more: Vec<u8> = bytes;
                self.buffer.append(&mut more);
                self.drain()
            },
            StreamInput::ReadError(text) => {
                let mut message: String = "read sse chunk: ".to_owned();
                message.append(text.as_str());
                self.closed = true;
                let item: Result<NormalizedStreamEvent, ProviderError> = Err(
                    ProviderError::Network { message },
                );
                proof {
                    assert(item_views(items@.push(item)) =~= seq![item_view(item)]);
                }
                items.push(item);
                items
            },
            StreamInput::End => {
                let item: Result<NormalizedStreamEvent, ProviderError> = Ok(self.last_event());
                proof {
                    assert(item_views(items@.push(item)) =~= seq![item_view(item)]);
                }
                self.closed = true;
                items.push(item);
                items
            },
        }
    }
}

/// Appends events to a list of items.
fn push_oks(
    items: &mut Vec<Result<NormalizedStreamEvent, ProviderError>>,
    events: Vec<NormalizedStreamEvent>,
)
    ensures
        item_views(final(items)@) == item_views(old(items)@) + oks(event_views(events@)),
{
    let ghost held = item_views(items@);
    let ghost came = oks(event_views(events@));
    proof {
        assert(held + came.take(0) =~= held);
    }
    for event in iter: events
        invariant
            item_views(items@) == held + came.take(iter.index() as int),
            came == oks(event_views(iter.seq())),
    {
        let item: Result<NormalizedStreamEvent, ProviderError> = Ok(event);
        proof {
            assert(item_views(items@.push(item)) =~= item_views(items@).push(item_view(item)));
            assert(came.take(iter.index() + 1) =~= came.take(iter.index() as int).push(
                item_view(item),
            ));
            assert(held + came.take(iter.index() as int).push(item_view(item)) =~= (held
                + came.take(iter.index() as int)).push(item_view(item)));
        }
        items.push(item);
    }
    assert(came.take(came.len() as int) =~= came);
}

} // verus!
