//! What streamed replies are read as, however they are cut.

use crate::adapter;
use crate::json;
use crate::json::{Json, Tree};
use crate::laws::replies::{calls_for, counts, law_call_ids_differ, leads_with};
use crate::normalized::{
    FinishReason, NormalizedStreamEvent, ProviderError, ProviderErrorView, StreamEventView,
    ToolCallView,
};
use crate::stream;
use crate::stream::{StreamDecoder, StreamInput, StreamModel};
use crate::text;
use vstd::prelude::*;
use vstd::utf8::*;

verus! {

/// The texts of a list of events, one after the other.
pub open spec fn delta_text(events: Seq<StreamEventView>) -> Seq<char>
    decreases events.len(),
{
    if events.len() == 0 {
        Seq::empty()
    } else {
        match events.last() {
            StreamEventView::TextDelta(s) => delta_text(events.drop_last()) + s,
            _ => delta_text(events.drop_last()),
        }
    }
}

/// The tool calls of a list of events, in their order.
pub open spec fn ready_calls(events: Seq<StreamEventView>) -> Seq<ToolCallView>
    decreases events.len(),
{
    if events.len() == 0 {
        Seq::empty()
    } else {
        match events.last() {
            StreamEventView::ToolCallReady(call) => ready_calls(events.drop_last()).push(call),
            _ => ready_calls(events.drop_last()),
        }
    }
}

/// One more event.
proof fn lemma_event_push(events: Seq<StreamEventView>, event: StreamEventView)
    ensures
        delta_text(events.push(event)) == match event {
            StreamEventView::TextDelta(s) => delta_text(events) + s,
            _ => delta_text(events),
        },
        ready_calls(events.push(event)) == match event {
            StreamEventView::ToolCallReady(call) => ready_calls(events).push(call),
            _ => ready_calls(events),
        },
{
    assert(events.push(event).drop_last() =~= events);
}

/// The parts that a stream brings say what they say in a whole reply. So do
/// their tool calls, unless a call rides with an empty text, which a whole
/// reply takes for a text.
pub proof fn law_stream_says_what_the_reply_says(parts: Seq<Tree>)
    ensures
        delta_text(stream::part_events(parts, 0)) == adapter::parts_text(parts),
        (forall|i: int|
            0 <= i < parts.len() && stream::part_calls(#[trigger] parts[i])
                ==> adapter::part_text(parts[i]) is None) ==> ready_calls(
            stream::part_events(parts, 0),
        ) == adapter::parts_calls(parts),
    decreases parts.len(),
{
    if parts.len() > 0 {
        let fewer = parts.drop_last();
        let part = parts.last();
        law_stream_says_what_the_reply_says(fewer);
        lemma_part_calls(fewer, 0);
        if stream::part_calls(part) {
            lemma_event_push(
                stream::part_events(fewer, 0),
                StreamEventView::ToolCallReady(
                    adapter::call_view(
                        part.get("functionCall"@)->0,
                        stream::count_calls(fewer) + 1,
                    ),
                ),
            );
            assert(adapter::parts_text(parts) =~= adapter::parts_text(fewer));
        } else if let Some(s) = adapter::part_text(part) {
            lemma_event_push(stream::part_events(fewer, 0), StreamEventView::TextDelta(s));
            if s.len() == 0 {
                assert(adapter::parts_text(parts) =~= adapter::parts_text(fewer));
            }
        }
        if forall|i: int|
            0 <= i < parts.len() && stream::part_calls(#[trigger] parts[i])
                ==> adapter::part_text(parts[i]) is None {
            assert forall|i: int|
                0 <= i < fewer.len() && stream::part_calls(
                    #[trigger] fewer[i],
                ) implies adapter::part_text(fewer[i]) is None by {
                assert(parts[i] == fewer[i]);
            }
            assert(parts[parts.len() - 1] == part);
        }
    }
}

/// The tool calls of the parts are numbered on from those that came before.
proof fn lemma_part_calls(parts: Seq<Tree>, calls: nat)
    ensures
        ready_calls(stream::part_events(parts, calls)).len() == stream::count_calls(parts),
        forall|i: int|
            0 <= i < stream::count_calls(parts) ==> (#[trigger] ready_calls(
                stream::part_events(parts, calls),
            )[i]).id == adapter::call_id((calls + i + 1) as nat),
    decreases parts.len(),
{
    if parts.len() > 0 {
        let fewer = parts.drop_last();
        let part = parts.last();
        lemma_part_calls(fewer, calls);
        let before = stream::part_events(fewer, calls);
        if stream::part_calls(part) {
            lemma_event_push(
                before,
                StreamEventView::ToolCallReady(
                    adapter::call_view(
                        part.get("functionCall"@)->0,
                        calls + stream::count_calls(fewer) + 1,
                    ),
                ),
            );
        } else if let Some(s) = adapter::part_text(part) {
            lemma_event_push(before, StreamEventView::TextDelta(s));
        }
    }
}

/// An event, the mark of its end and the rest make up the buffer that they were
/// cut from. In a buffer with a `\r\n\r\n` the event goes up to the first of
/// these, and up to the first `\n\n` in any other.
pub proof fn law_event_and_rest_make_up_the_buffer(buffer: Seq<u8>)
    requires
        stream::event_boundary(buffer) is Some,
    ensures
        ({
            let at = stream::event_boundary(buffer)->0;
            let cut = at + stream::boundary_len(buffer.skip(at));
            let mark = buffer.subrange(at, cut);
            &&& 0 <= at < cut <= buffer.len()
            &&& buffer == buffer.take(at) + mark + buffer.skip(cut)
            &&& mark == if text::mentions(buffer, stream::crlf_twice()) {
                stream::crlf_twice()
            } else {
                stream::lf_twice()
            }
            &&& forall|i: int| 0 <= i < at ==> !text::occurs_at(buffer, mark, i)
        }),
{
    let at = stream::event_boundary(buffer)->0;
    let crlf = stream::crlf_twice();
    let lf = stream::lf_twice();
    stream::lemma_boundary(buffer);
    stream::lemma_first_from(buffer, crlf, 0);
    stream::lemma_first_from(buffer, lf, 0);
    let cut = at + stream::boundary_len(buffer.skip(at));
    assert(buffer =~= buffer.take(at) + buffer.subrange(at, cut) + buffer.skip(cut));
    if text::mentions(buffer, crlf) {
        let there = choose|there: int| text::occurs_at(buffer, crlf, there);
        assert(stream::first_from(buffer, crlf, 0) is Some);
        assert(buffer.skip(at).subrange(0, 4) =~= buffer.subrange(at, at + 4));
    } else {
        assert(stream::first_from(buffer, crlf, 0) is None);
        assert(buffer.skip(at).subrange(0, 2) =~= buffer.subrange(at, at + 2));
        if text::occurs_at(buffer.skip(at), crlf, 0) {
            assert(buffer.skip(at).subrange(0, 4) =~= buffer.subrange(at, at + 4));
            assert(text::occurs_at(buffer, crlf, at));
        }
    }
}

/// What a run of inputs does, one after the other.
pub open spec fn run(s: StreamModel, inputs: Seq<StreamInput>) -> (
    StreamModel,
    Seq<Result<StreamEventView, ProviderErrorView>>,
)
    decreases inputs.len(),
{
    if inputs.len() == 0 {
        (s, Seq::empty())
    } else {
        let (before, items) = run(s, inputs.drop_last());
        let (after, more) = stream::stepped(before, inputs.last());
        (after, items + more)
    }
}

/// An item that ends a reply: its last event, or a failure.
pub open spec fn ends_reply(item: Result<StreamEventView, ProviderErrorView>) -> bool {
    match item {
        Ok(event) => event is Finish,
        Err(_) => true,
    }
}

/// The tool calls among the items of a stream, in their order.
pub open spec fn stream_calls(items: Seq<Result<StreamEventView, ProviderErrorView>>) -> Seq<
    ToolCallView,
>
    decreases items.len(),
{
    if items.len() == 0 {
        Seq::empty()
    } else {
        match items.last() {
            Ok(StreamEventView::ToolCallReady(call)) => stream_calls(items.drop_last()).push(call),
            _ => stream_calls(items.drop_last()),
        }
    }
}

/// A list of calls carries on the numbering after the first `calls`.
spec fn numbered_from(list: Seq<ToolCallView>, calls: nat) -> bool {
    forall|i: int|
        0 <= i < list.len() ==> (#[trigger] list[i]).id == adapter::call_id((calls + i + 1) as nat)
}

/// The events end the reply with their last one and with no other, if and only
/// if the reply is closed.
spec fn ends_well(events: Seq<StreamEventView>, closed: bool) -> bool {
    &&& forall|i: int| 0 <= i < events.len() - 1 ==> !(#[trigger] events[i] is Finish)
    &&& closed <==> events.len() > 0 && events.last() is Finish
}

/// Tool calls of two lists of events.
proof fn lemma_ready_calls_add(first: Seq<StreamEventView>, second: Seq<StreamEventView>)
    ensures
        ready_calls(first + second) == ready_calls(first) + ready_calls(second),
    decreases second.len(),
{
    if second.len() == 0 {
        assert(first + second =~= first);
        assert(ready_calls(first) + ready_calls(second) =~= ready_calls(first));
    } else {
        lemma_ready_calls_add(first, second.drop_last());
        assert((first + second).drop_last() =~= first + second.drop_last());
        assert(ready_calls(first + second) =~= ready_calls(first) + ready_calls(second));
    }
}

/// Tool calls of two lists of items.
proof fn lemma_stream_calls_add(
    first: Seq<Result<StreamEventView, ProviderErrorView>>,
    second: Seq<Result<StreamEventView, ProviderErrorView>>,
)
    ensures
        stream_calls(first + second) == stream_calls(first) + stream_calls(second),
    decreases second.len(),
{
    if second.len() == 0 {
        assert(first + second =~= first);
        assert(stream_calls(first) + stream_calls(second) =~= stream_calls(first));
    } else {
        lemma_stream_calls_add(first, second.drop_last());
        assert((first + second).drop_last() =~= first + second.drop_last());
        assert(stream_calls(first + second) =~= stream_calls(first) + stream_calls(second));
    }
}

/// Events as items have the same tool calls.
proof fn lemma_stream_calls_of_oks(events: Seq<StreamEventView>)
    ensures
        stream_calls(stream::oks(events)) == ready_calls(events),
    decreases events.len(),
{
    if events.len() > 0 {
        lemma_stream_calls_of_oks(events.drop_last());
        assert(stream::oks(events).drop_last() =~= stream::oks(events.drop_last()));
    }
}

/// No part ends a reply.
proof fn lemma_parts_do_not_finish(parts: Seq<Tree>, calls: nat)
    ensures
        forall|i: int|
            0 <= i < stream::part_events(parts, calls).len() ==> !(#[trigger] stream::part_events(
                parts,
                calls,
            )[i] is Finish),
    decreases parts.len(),
{
    if parts.len() > 0 {
        lemma_parts_do_not_finish(parts.drop_last(), calls);
    }
}

/// What the bytes of one event do to an open reply.
proof fn lemma_taken(s: StreamModel, event: Seq<u8>)
    requires
        !s.closed,
    ensures
        stream::taken(s, event).0.buffer == s.buffer,
        stream::taken(s, event).0.calls == s.calls + ready_calls(stream::taken(s, event).1).len(),
        numbered_from(ready_calls(stream::taken(s, event).1), s.calls),
        ends_well(stream::taken(s, event).1, stream::taken(s, event).0.closed),
{
    match stream::payload_of(event) {
        stream::Payload::Nothing => {},
        stream::Payload::Done => {
            lemma_event_push(Seq::empty(), stream::finish_event(s));
            assert(Seq::empty().push(stream::finish_event(s)) =~= seq![stream::finish_event(s)]);
        },
        stream::Payload::Document(tree) => {
            if let Some(candidate) = adapter::first_candidate(tree) {
                let parts = stream::candidate_parts(candidate);
                lemma_part_calls(parts, s.calls);
                lemma_parts_do_not_finish(parts, s.calls);
            }
        },
    }
}

/// What the complete events of the buffer do to an open reply.
proof fn lemma_drained(s: StreamModel)
    requires
        !s.closed,
    ensures
        stream::drained(s).0.calls == s.calls + ready_calls(stream::drained(s).1).len(),
        numbered_from(ready_calls(stream::drained(s).1), s.calls),
        ends_well(stream::drained(s).1, stream::drained(s).0.closed),
        !stream::drained(s).0.closed ==> stream::event_boundary(stream::drained(s).0.buffer)
            is None,
    decreases s.buffer.len(),
{
    if let Some(at) = stream::event_boundary(s.buffer) {
        stream::lemma_boundary(s.buffer);
        let after = s.buffer.skip(at);
        let cut = StreamModel { buffer: after.skip(stream::boundary_len(after)), ..s };
        let event = s.buffer.take(at);
        let (next, events) = stream::taken(cut, event);
        lemma_taken(cut, event);
        if next.closed {
            assert(stream::drained(next) == (next, Seq::<StreamEventView>::empty()));
            assert(events + Seq::empty() =~= events);
        } else {
            lemma_drained(next);
            let (last, more) = stream::drained(next);
            lemma_ready_calls_add(events, more);
            assert(ends_well(events + more, last.closed)) by {
                assert forall|i: int| 0 <= i < (events + more).len() - 1 implies !(#[trigger] (
                events + more)[i] is Finish) by {
                    if i < events.len() {
                        if i == events.len() - 1 {
                            assert(events[i] == events.last());
                        }
                    } else {
                        assert((events + more)[i] == more[i - events.len()]);
                    }
                }
                if more.len() > 0 {
                    assert((events + more).last() == more.last());
                } else {
                    assert(events + more =~= events);
                }
            }
        }
    }
}

/// After its end a reply stays as it is, and nothing comes any more.
pub proof fn law_nothing_follows_the_end(s: StreamModel, inputs: Seq<StreamInput>)
    requires
        s.closed,
    ensures
        run(s, inputs) == (s, Seq::<Result<StreamEventView, ProviderErrorView>>::empty()),
    decreases inputs.len(),
{
    if inputs.len() > 0 {
        law_nothing_follows_the_end(s, inputs.drop_last());
    }
}

/// A stream ends its reply at most once: with its last event or with a failure,
/// whichever it is, as the last item. The reply is closed if and only if that
/// has come.
pub proof fn law_stream_ends_once(s: StreamModel, inputs: Seq<StreamInput>)
    requires
        !s.closed,
    ensures
        forall|i: int|
            0 <= i < run(s, inputs).1.len() - 1 ==> !ends_reply(#[trigger] run(s, inputs).1[i]),
        run(s, inputs).0.closed <==> run(s, inputs).1.len() > 0 && ends_reply(
            run(s, inputs).1.last(),
        ),
    decreases inputs.len(),
{
    if inputs.len() > 0 {
        let fewer = inputs.drop_last();
        law_stream_ends_once(s, fewer);
        let (before, items) = run(s, fewer);
        let (after, more) = stream::stepped(before, inputs.last());
        assert(items + Seq::<Result<StreamEventView, ProviderErrorView>>::empty() =~= items);
        if !before.closed {
            if let StreamInput::Chunk(bytes) = inputs.last() {
                lemma_drained(StreamModel { buffer: before.buffer + bytes@, ..before });
                let events = stream::fed(before, bytes@).1;
                assert(more =~= stream::oks(events));
                assert forall|i: int| 0 <= i < more.len() - 1 implies !ends_reply(
                    #[trigger] more[i],
                ) by {
                    assert(!(events[i] is Finish));
                }
                if more.len() > 0 {
                    assert(more.last() == Ok::<StreamEventView, ProviderErrorView>(events.last()));
                }
            }
            assert forall|i: int| 0 <= i < (items + more).len() - 1 implies !ends_reply(
                #[trigger] (items + more)[i],
            ) by {
                if i < items.len() {
                    assert((items + more)[i] == items[i]);
                } else {
                    assert((items + more)[i] == more[i - items.len()]);
                }
            }
            if more.len() > 0 {
                assert((items + more).last() == more.last());
            } else {
                assert(items + more =~= items);
            }
        }
    }
}

/// The end of the connection ends an open reply with its last event, which
/// tells why the model stopped and the token counts that came last.
pub proof fn law_end_of_connection_finishes(s: StreamModel)
    requires
        !s.closed,
    ensures
        stream::stepped(s, StreamInput::End).0.closed,
        stream::stepped(s, StreamInput::End).1 == seq![
            Ok::<StreamEventView, ProviderErrorView>(stream::finish_event(s)),
        ],
{
}

/// Over a whole stream, however it is cut, the tool calls are numbered on in
/// the order in which they come.
pub proof fn law_stream_calls_are_numbered(s: StreamModel, inputs: Seq<StreamInput>)
    ensures
        run(s, inputs).0.calls == s.calls + stream_calls(run(s, inputs).1).len(),
        forall|i: int|
            0 <= i < stream_calls(run(s, inputs).1).len() ==> (#[trigger] stream_calls(
                run(s, inputs).1,
            )[i]).id == adapter::call_id((s.calls + i + 1) as nat),
    decreases inputs.len(),
{
    if inputs.len() > 0 {
        let fewer = inputs.drop_last();
        law_stream_calls_are_numbered(s, fewer);
        let (before, items) = run(s, fewer);
        let (after, more) = stream::stepped(before, inputs.last());
        lemma_stream_calls_add(items, more);
        if !before.closed {
            match inputs.last() {
                StreamInput::Chunk(bytes) => {
                    lemma_drained(StreamModel { buffer: before.buffer + bytes@, ..before });
                    let events = stream::fed(before, bytes@).1;
                    lemma_stream_calls_of_oks(events);
                },
                StreamInput::ReadError(_) => {
                    assert(more.drop_last() =~= Seq::empty());
                    assert(stream_calls(more.drop_last()) =~= Seq::empty());
                },
                StreamInput::End => {
                    assert(more.drop_last() =~= Seq::empty());
                    assert(stream_calls(more.drop_last()) =~= Seq::empty());
                },
            }
        }
    }
}

/// No two tool calls of a stream share an identifier.
pub proof fn law_stream_call_ids_differ(s: StreamModel, inputs: Seq<StreamInput>, i: int, j: int)
    requires
        0 <= i < j < stream_calls(run(s, inputs).1).len(),
    ensures
        stream_calls(run(s, inputs).1)[i].id != stream_calls(run(s, inputs).1)[j].id,
{
    law_stream_calls_are_numbered(s, inputs);
    law_call_ids_differ((s.calls + i + 1) as nat, (s.calls + j + 1) as nat);
}

/// A stream that marks the ends of its events in one way: with `\n\n` alone, or
/// with `\r\n\r\n` alone.
pub open spec fn uniform(bytes: Seq<u8>) -> bool {
    !text::mentions(bytes, stream::crlf_twice()) || !text::mentions(bytes, stream::lf_twice())
}

/// What a run of chunks does to an open reply, one after the other. What comes
/// after its end is dropped.
spec fn fed_all(s: StreamModel, chunks: Seq<Seq<u8>>) -> (
    StreamModel,
    Seq<StreamEventView>,
)
    decreases chunks.len(),
{
    if chunks.len() == 0 {
        (s, Seq::empty())
    } else {
        let (before, events) = fed_all(s, chunks.drop_last());
        if before.closed {
            (before, events)
        } else {
            let (after, more) = stream::fed(before, chunks.last());
            (after, events + more)
        }
    }
}

/// Where a text fits before `extra`, it stands there with and without it.
proof fn lemma_occurs_before(bytes: Seq<u8>, extra: Seq<u8>, needle: Seq<u8>, at: int)
    requires
        0 <= at,
        at + needle.len() <= bytes.len(),
    ensures
        text::occurs_at(bytes + extra, needle, at) == text::occurs_at(bytes, needle, at),
{
    assert((bytes + extra).subrange(at, at + needle.len()) =~= bytes.subrange(
        at,
        at + needle.len(),
    ));
}

/// More bytes do not move the first occurrence.
proof fn lemma_first_stays(bytes: Seq<u8>, extra: Seq<u8>, needle: Seq<u8>)
    requires
        needle.len() > 0,
        stream::first_from(bytes, needle, 0) is Some,
    ensures
        stream::first_from(bytes + extra, needle, 0) == stream::first_from(bytes, needle, 0),
{
    stream::lemma_first_from(bytes, needle, 0);
    stream::lemma_first_from(bytes + extra, needle, 0);
    let at = stream::first_from(bytes, needle, 0)->0;
    lemma_occurs_before(bytes, extra, needle, at);
    let found = stream::first_from(bytes + extra, needle, 0)->0;
    if found < at {
        lemma_occurs_before(bytes, extra, needle, found);
    }
}

/// In a uniform stream, more bytes do not move the end of the first event.
proof fn lemma_boundary_stays(bytes: Seq<u8>, extra: Seq<u8>)
    requires
        uniform(bytes + extra),
        stream::event_boundary(bytes) is Some,
    ensures
        stream::event_boundary(bytes + extra) == stream::event_boundary(bytes),
        stream::boundary_len((bytes + extra).skip(stream::event_boundary(bytes)->0))
            == stream::boundary_len(bytes.skip(stream::event_boundary(bytes)->0)),
{
    let whole = bytes + extra;
    let at = stream::event_boundary(bytes)->0;
    let crlf = stream::crlf_twice();
    let lf = stream::lf_twice();
    stream::lemma_first_from(bytes, crlf, 0);
    stream::lemma_first_from(bytes, lf, 0);
    stream::lemma_first_from(whole, crlf, 0);
    stream::lemma_first_from(whole, lf, 0);
    if stream::first_from(bytes, crlf, 0) is Some {
        lemma_first_stays(bytes, extra, crlf);
        assert(bytes.skip(at).subrange(0, 4) =~= bytes.subrange(at, at + 4));
        assert(whole.skip(at).subrange(0, 4) =~= bytes.subrange(at, at + 4));
    } else {
        lemma_first_stays(bytes, extra, lf);
        assert(text::occurs_at(whole, lf, at));
        assert(text::mentions(whole, lf));
        assert(stream::first_from(whole, crlf, 0) is None);
        assert(bytes.skip(at).subrange(0, 2) =~= bytes.subrange(at, at + 2));
        assert(whole.skip(at).subrange(0, 2) =~= bytes.subrange(at, at + 2));
        assert(bytes.subrange(at, at + 2)[0] == 10);
        if text::occurs_at(bytes.skip(at), crlf, 0) {
            assert(bytes.skip(at).subrange(0, 4)[0] == 13);
        }
        if text::occurs_at(whole.skip(at), crlf, 0) {
            assert(whole.skip(at).subrange(0, 4)[0] == 13);
        }
    }
}

/// The rest of a uniform stream is uniform.
proof fn lemma_rest_is_uniform(bytes: Seq<u8>, from: int)
    requires
        0 <= from <= bytes.len(),
        uniform(bytes),
    ensures
        uniform(bytes.skip(from)),
{
    let rest = bytes.skip(from);
    let crlf = stream::crlf_twice();
    let lf = stream::lf_twice();
    if text::mentions(rest, crlf) {
        let at = choose|at: int| text::occurs_at(rest, crlf, at);
        assert(bytes.subrange(from + at, from + at + 4) =~= rest.subrange(at, at + 4));
        assert(text::occurs_at(bytes, crlf, from + at));
    }
    if text::mentions(rest, lf) {
        let at = choose|at: int| text::occurs_at(rest, lf, at);
        assert(bytes.subrange(from + at, from + at + 2) =~= rest.subrange(at, at + 2));
        assert(text::occurs_at(bytes, lf, from + at));
    }
}

/// The bytes of an event do the same whatever the buffer holds.
proof fn lemma_taken_beside_buffer(s: StreamModel, buffer: Seq<u8>, event: Seq<u8>)
    ensures
        stream::taken(StreamModel { buffer, ..s }, event) == (
            StreamModel { buffer, ..stream::taken(s, event).0 },
            stream::taken(s, event).1,
        ),
{
}

/// Draining the buffer now and again with more bytes does what draining it once
/// with all of them does.
proof fn lemma_drain_twice(s: StreamModel, extra: Seq<u8>)
    requires
        uniform(s.buffer + extra),
    ensures
        ({
            let (now, first) = stream::drained(s);
            let (once, all) = stream::drained(StreamModel { buffer: s.buffer + extra, ..s });
            let more = StreamModel { buffer: now.buffer + extra, ..now };
            if now.closed {
                once == more && all == first
            } else {
                once == stream::drained(more).0 && all == first + stream::drained(more).1
            }
        }),
    decreases s.buffer.len(),
{
    let whole = StreamModel { buffer: s.buffer + extra, ..s };
    match stream::event_boundary(s.buffer) {
        None => {
            assert(Seq::empty() + stream::drained(whole).1 =~= stream::drained(whole).1);
        },
        Some(at) => {
            if !s.closed {
                stream::lemma_boundary(s.buffer);
                lemma_boundary_stays(s.buffer, extra);
                let after = s.buffer.skip(at);
                let cut = at + stream::boundary_len(after);
                let rest = after.skip(stream::boundary_len(after));
                assert(whole.buffer.take(at) =~= s.buffer.take(at));
                assert(whole.buffer.skip(at).skip(stream::boundary_len(after)) =~= rest + extra);
                assert(whole.buffer.skip(cut) =~= rest + extra);
                lemma_rest_is_uniform(whole.buffer, cut);
                let event = s.buffer.take(at);
                let next = stream::taken(StreamModel { buffer: rest, ..s }, event).0;
                let events = stream::taken(StreamModel { buffer: rest, ..s }, event).1;
                lemma_taken_beside_buffer(s, rest, event);
                lemma_taken_beside_buffer(s, rest + extra, event);
                lemma_drain_twice(next, extra);
                let (now, first) = stream::drained(next);
                let more = StreamModel { buffer: now.buffer + extra, ..now };
                assert(events + (first + stream::drained(more).1) =~= (events + first)
                    + stream::drained(more).1);
            }
        },
    }
}

/// Two replies stand at the same place, what is left in their buffers aside.
pub open spec fn stands_alike(one: StreamModel, other: StreamModel) -> bool {
    one == (StreamModel { buffer: one.buffer, ..other })
}

/// Chunks one after the other do what all their bytes do at once.
proof fn lemma_chunks_at_once(s: StreamModel, chunks: Seq<Seq<u8>>)
    requires
        !s.closed,
        stream::event_boundary(s.buffer) is None,
        uniform(s.buffer + chunks.flatten()),
    ensures
        fed_all(s, chunks).1 == stream::fed(s, chunks.flatten()).1,
        stands_alike(fed_all(s, chunks).0, stream::fed(s, chunks.flatten()).0),
        !fed_all(s, chunks).0.closed ==> fed_all(s, chunks).0 == stream::fed(
            s,
            chunks.flatten(),
        ).0,
    decreases chunks.len(),
{
    if chunks.len() == 0 {
        assert(chunks =~= Seq::empty());
        assert(chunks.flatten() =~= Seq::<u8>::empty());
        assert(s.buffer + chunks.flatten() =~= s.buffer);
    } else {
        let fewer = chunks.drop_last();
        let last = chunks.last();
        chunks.lemma_flatten_and_flatten_alt_are_equivalent();
        fewer.lemma_flatten_and_flatten_alt_are_equivalent();
        assert(chunks.flatten() == fewer.flatten() + last);
        let early = s.buffer + fewer.flatten();
        assert(s.buffer + chunks.flatten() =~= early + last);
        lemma_start_is_uniform(early, last);
        lemma_chunks_at_once(s, fewer);
        lemma_drain_twice(StreamModel { buffer: early, ..s }, last);
    }
}

/// The start of a uniform stream is uniform.
proof fn lemma_start_is_uniform(bytes: Seq<u8>, extra: Seq<u8>)
    requires
        uniform(bytes + extra),
    ensures
        uniform(bytes),
{
    let crlf = stream::crlf_twice();
    let lf = stream::lf_twice();
    if text::mentions(bytes, crlf) {
        let at = choose|at: int| text::occurs_at(bytes, crlf, at);
        lemma_occurs_before(bytes, extra, crlf, at);
        assert(text::occurs_at(bytes + extra, crlf, at));
    }
    if text::mentions(bytes, lf) {
        let at = choose|at: int| text::occurs_at(bytes, lf, at);
        lemma_occurs_before(bytes, extra, lf, at);
        assert(text::occurs_at(bytes + extra, lf, at));
    }
}

/// The bytes of chunks, in their order.
pub open spec fn chunk_bytes(inputs: Seq<StreamInput>) -> Seq<Seq<u8>> {
    inputs.map_values(|input: StreamInput| input->Chunk_0@)
}

/// A run of chunks, as items.
proof fn lemma_run_of_chunks(s: StreamModel, inputs: Seq<StreamInput>)
    requires
        !s.closed,
        forall|i: int| 0 <= i < inputs.len() ==> #[trigger] inputs[i] is Chunk,
    ensures
        run(s, inputs) == (
            fed_all(s, chunk_bytes(inputs)).0,
            stream::oks(fed_all(s, chunk_bytes(inputs)).1),
        ),
    decreases inputs.len(),
{
    let chunks = chunk_bytes(inputs);
    if inputs.len() == 0 {
        assert(stream::oks(Seq::empty()) =~= Seq::empty());
    } else {
        let fewer = inputs.drop_last();
        assert forall|i: int| 0 <= i < fewer.len() implies #[trigger] fewer[i] is Chunk by {
            assert(fewer[i] == inputs[i]);
        }
        lemma_run_of_chunks(s, fewer);
        assert(chunk_bytes(fewer) =~= chunks.drop_last());
        assert(inputs[inputs.len() - 1] is Chunk);
        let (before, events) = fed_all(s, chunks.drop_last());
        if before.closed {
            assert(stream::oks(events) + Seq::empty() =~= stream::oks(events));
        } else {
            let more = stream::fed(before, chunks.last()).1;
            assert(stream::oks(events + more) =~= stream::oks(events) + stream::oks(more));
        }
    }
}

/// How a uniform stream is cut into chunks makes no difference: the items are
/// those of all its bytes at once, and the reply stands where it would then
/// stand. (Of a reply that has ended, what is left in its buffer is of no use.)
pub proof fn law_chunking_makes_no_difference(
    s: StreamModel,
    inputs: Seq<StreamInput>,
    whole: StreamInput,
)
    requires
        !s.closed,
        stream::event_boundary(s.buffer) is None,
        forall|i: int| 0 <= i < inputs.len() ==> #[trigger] inputs[i] is Chunk,
        whole is Chunk,
        whole->Chunk_0@ == chunk_bytes(inputs).flatten(),
        uniform(s.buffer + whole->Chunk_0@),
    ensures
        run(s, inputs).1 == stream::stepped(s, whole).1,
        stands_alike(run(s, inputs).0, stream::stepped(s, whole).0),
        !run(s, inputs).0.closed ==> run(s, inputs).0 == stream::stepped(s, whole).0,
{
    lemma_run_of_chunks(s, inputs);
    lemma_chunks_at_once(s, chunk_bytes(inputs));
}

/// Between two inputs no complete event waits in the buffer of an open reply.
pub proof fn law_no_event_waits(s: StreamModel, inputs: Seq<StreamInput>)
    requires
        s.closed || stream::event_boundary(s.buffer) is None,
    ensures
        run(s, inputs).0.closed || stream::event_boundary(run(s, inputs).0.buffer) is None,
    decreases inputs.len(),
{
    if inputs.len() > 0 {
        law_no_event_waits(s, inputs.drop_last());
        let before = run(s, inputs.drop_last()).0;
        if !before.closed {
            if let StreamInput::Chunk(bytes) = inputs.last() {
                lemma_drained(StreamModel { buffer: before.buffer + bytes@, ..before });
            }
        }
    }
}

// ---------------------------------------------------------------------------
// What a partial reply does
// ---------------------------------------------------------------------------

/// A partial reply that has this first candidate.
pub open spec fn first_is(event: Tree, candidate: Tree) -> bool {
    event.get("candidates"@) matches Some(Tree::Array(candidates)) && candidates.len() > 0
        && candidates[0] == candidate
}

/// A partial reply without a first candidate.
pub open spec fn leads_nowhere(event: Tree) -> bool {
    match event.get("candidates"@) {
        Some(Tree::Array(candidates)) => candidates.len() == 0,
        _ => true,
    }
}

/// A candidate without an array of parts.
pub open spec fn partless(candidate: Tree) -> bool {
    match candidate.get("content"@) {
        Some(content) => !(content.get("parts"@) matches Some(Tree::Array(_))),
        None => true,
    }
}

/// The usage of a stream is that of the last partial reply that carried any: it
/// takes the place of what was there, and without it what was there stays. The
/// last event reports it.
pub proof fn law_the_last_usage_counts(s: StreamModel, event: Tree)
    ensures
        match event.get("usageMetadata"@) {
            Some(metadata) => counts(stream::applied(s, event).0.usage, Some(metadata)),
            None => stream::applied(s, event).0.usage == s.usage,
        },
        stream::finish_event(s) matches StreamEventView::Finish { usage, .. } && usage == s.usage,
{
}

/// A partial reply leaves the buffer, and does not end the reply.
pub proof fn law_partial_replies_leave_the_buffer(s: StreamModel, event: Tree)
    ensures
        stream::applied(s, event).0.buffer == s.buffer,
        stream::applied(s, event).0.closed == s.closed,
{
}

/// The last word on why the model stopped counts: a partial reply without one
/// leaves what was said. `STOP` is told by whether any tool was called, in this
/// partial reply or in any before it.
pub proof fn law_the_last_finish_reason_counts(s: StreamModel, event: Tree, candidate: Tree)
    ensures
        leads_nowhere(event) ==> stream::applied(s, event).0.finish == s.finish,
        first_is(event, candidate) ==> {
            let after = stream::applied(s, event).0;
            match candidate.get("finishReason"@) {
                Some(Tree::Text(word)) => {
                    &&& word == "STOP"@ && after.calls == 0 ==> after.finish == Some(
                        FinishReason::Stop,
                    )
                    &&& word == "STOP"@ && after.calls > 0 ==> after.finish == Some(
                        FinishReason::ToolCalls,
                    )
                    &&& word == "MAX_TOKENS"@ ==> after.finish == Some(FinishReason::Length)
                    &&& word == "SAFETY"@ ==> after.finish == Some(FinishReason::ContentFilter)
                    &&& word != "STOP"@ && word != "MAX_TOKENS"@ && word != "SAFETY"@
                        ==> after.finish == Some(FinishReason::Other)
                },
                _ => after.finish == s.finish,
            }
        },
{
    reveal_strlit("STOP");
    reveal_strlit("MAX_TOKENS");
    reveal_strlit("SAFETY");
    assert("STOP"@.len() == 4);
    assert("MAX_TOKENS"@.len() == 10);
    assert("SAFETY"@.len() == 6);
}

/// The last event tells the last word on why the model stopped, and `Other`
/// where there was none.
pub proof fn law_the_last_event_tells_why(s: StreamModel)
    ensures
        stream::finish_event(s) matches StreamEventView::Finish { reason, usage } && usage
            == s.usage && match s.finish {
            Some(said) => reason == said,
            None => reason == FinishReason::Other,
        },
{
}

/// A partial reply without parts passes nothing on and calls nothing.
pub proof fn law_no_parts_no_events(s: StreamModel, event: Tree, candidate: Tree)
    requires
        leads_nowhere(event) || (first_is(event, candidate) && partless(candidate)) || leads_with(
            event,
            candidate,
            Seq::empty(),
        ),
    ensures
        stream::applied(s, event).1.len() == 0,
        stream::applied(s, event).0.calls == s.calls,
{
}

/// One more part of a partial reply adds at most one event, at the end: its text
/// where it has one that is not empty, or else its function call, numbered on.
/// The events of the parts before it stay.
pub proof fn law_parts_pass_on_what_they_hold(
    s: StreamModel,
    fewer: Tree,
    few_candidate: Tree,
    parts: Seq<Tree>,
    more: Tree,
    more_candidate: Tree,
    part: Tree,
)
    requires
        leads_with(fewer, few_candidate, parts),
        leads_with(more, more_candidate, parts.push(part)),
    ensures
        ({
            let (before, few) = stream::applied(s, fewer);
            let (after, many) = stream::applied(s, more);
            let said = match part.get("text"@) {
                Some(Tree::Text(said)) => said,
                _ => Seq::empty(),
            };
            if said.len() > 0 {
                &&& after.calls == before.calls
                &&& many == few.push(StreamEventView::TextDelta(said))
            } else {
                match part.get("functionCall"@) {
                    Some(block) => {
                        &&& after.calls == before.calls + 1
                        &&& many.len() == few.len() + 1
                        &&& many.drop_last() == few
                        &&& many.last() matches StreamEventView::ToolCallReady(call)
                        &&& calls_for(call, block, after.calls)
                    },
                    None => after.calls == before.calls && many == few,
                }
            }
        }),
{
    assert(parts.push(part).drop_last() =~= parts);
    let few = stream::part_events(parts, s.calls);
    let many = stream::part_events(parts.push(part), s.calls);
    if many.len() > few.len() {
        assert(many.drop_last() =~= few);
    }
}

// ---------------------------------------------------------------------------
// What the bytes of an event do
// ---------------------------------------------------------------------------

/// A line without the carriage return at its end.
pub open spec fn without_return(line: Seq<char>) -> Seq<char> {
    if line.len() > 0 && line.last() == '\r' {
        line.drop_last()
    } else {
        line
    }
}

/// The data of an event is what follows `data:` and the blanks after it on the
/// first line that starts so. A line that starts otherwise is passed over.
pub proof fn law_data_is_on_the_first_data_line(line: Seq<char>, rest: Seq<char>)
    requires
        forall|i: int| 0 <= i < line.len() ==> #[trigger] line[i] != '\n',
    ensures
        ({
            let whole = line.push('\n') + rest;
            let bare = without_return(line);
            if text::occurs_at(bare, "data:"@, 0) {
                stream::event_data(whole) == Some(text::without_leading(bare.skip(5), ' '))
            } else {
                stream::event_data(whole) == stream::event_data(rest)
            }
        }),
        text::occurs_at(line, "data:"@, 0) ==> stream::event_data(line) == Some(
            text::without_leading(line.skip(5), ' '),
        ),
        !text::occurs_at(line, "data:"@, 0) ==> stream::event_data(line) is None,
{
    let whole = line.push('\n') + rest;
    lemma_line_end(line, rest);
    let end = line.len() as int;
    assert(whole.take(end) =~= line);
    assert(whole.skip(end + 1) =~= rest);
    if end > 0 {
        assert(whole[end - 1] == line[end - 1]);
        assert(whole.take(end - 1) =~= line.drop_last());
    }
    assert(stream::first_line(whole) =~= without_return(line));
    assert(stream::line_end(line) == line.len()) by {
        lemma_no_line_end(line);
    }
    assert(line.take(end) =~= line);
    assert(stream::first_line(line) =~= line);
    if line.len() == 0 {
        reveal_strlit("data:");
        assert("data:"@.len() == 5);
    }
}

proof fn lemma_line_end(line: Seq<char>, rest: Seq<char>)
    requires
        forall|i: int| 0 <= i < line.len() ==> #[trigger] line[i] != '\n',
    ensures
        stream::line_end(line.push('\n') + rest) == line.len(),
    decreases line.len(),
{
    let whole = line.push('\n') + rest;
    if line.len() > 0 {
        assert(whole[0] == line[0]);
        assert(whole.skip(1) =~= line.skip(1).push('\n') + rest);
        assert forall|i: int| 0 <= i < line.skip(1).len() implies #[trigger] line.skip(1)[i]
            != '\n' by {
            assert(line.skip(1)[i] == line[i + 1]);
        }
        lemma_line_end(line.skip(1), rest);
    }
}

proof fn lemma_no_line_end(line: Seq<char>)
    requires
        forall|i: int| 0 <= i < line.len() ==> #[trigger] line[i] != '\n',
    ensures
        stream::line_end(line) == line.len(),
    decreases line.len(),
{
    if line.len() > 0 {
        assert forall|i: int| 0 <= i < line.skip(1).len() implies #[trigger] line.skip(1)[i]
            != '\n' by {
            assert(line.skip(1)[i] == line[i + 1]);
        }
        lemma_no_line_end(line.skip(1));
    }
}

/// Bytes that are no text, an event without data and data that are no document
/// do nothing.
pub proof fn law_what_is_no_partial_reply_does_nothing(s: StreamModel, event: Seq<u8>)
    requires
        !valid_utf8(event) || stream::event_data(decode_utf8(event)) is None || (
        stream::event_data(decode_utf8(event)) matches Some(data) && text::trimmed(data)
            != "[DONE]"@ && json::json_from_str(data) is None),
    ensures
        stream::taken(s, event) == (s, Seq::<StreamEventView>::empty()),
{
}

/// The end mark, with white space around it or not, ends the reply with its last
/// event and changes nothing else.
pub proof fn law_the_end_mark_ends_the_reply(s: StreamModel, event: Seq<u8>)
    requires
        valid_utf8(event),
        stream::event_data(decode_utf8(event)) matches Some(data) && text::trimmed(data)
            == "[DONE]"@,
    ensures
        stream::taken(s, event).0 == (StreamModel { closed: true, ..s }),
        stream::taken(s, event).1 == seq![stream::finish_event(s)],
{
}

/// A document does what it says as a partial reply.
pub proof fn law_documents_are_partial_replies(s: StreamModel, event: Seq<u8>, document: Tree)
    requires
        valid_utf8(event),
        stream::event_data(decode_utf8(event)) matches Some(data) && text::trimmed(data)
            != "[DONE]"@ && json::json_from_str(data) == Some(document),
    ensures
        stream::taken(s, event) == stream::applied(s, document),
{
}

// ---------------------------------------------------------------------------
// What the transport hands over
// ---------------------------------------------------------------------------

/// A mark stands right after the first event and not before.
pub open spec fn ends_first(event: Seq<u8>, mark: Seq<u8>, rest: Seq<u8>) -> bool {
    forall|i: int| 0 <= i < event.len() ==> !text::occurs_at(event + mark + rest, mark, i)
}

/// More bytes that complete an event do what that event does, and then what the
/// rest of them do, unless the event has ended the reply.
pub proof fn law_events_are_taken_one_after_the_other(
    s: StreamModel,
    bytes: Seq<u8>,
    event: Seq<u8>,
    mark: Seq<u8>,
    rest: Seq<u8>,
)
    requires
        s.buffer + bytes == event + mark + rest,
        ends_first(event, mark, rest),
        mark == seq![13u8, 10u8, 13u8, 10u8] || (mark == seq![10u8, 10u8] && !text::mentions(
            s.buffer + bytes,
            seq![13u8, 10u8, 13u8, 10u8],
        )),
        !s.closed,
    ensures
        ({
            let (after, events) = stream::taken(StreamModel { buffer: rest, ..s }, event);
            &&& after.closed ==> stream::fed(s, bytes) == (after, events)
            &&& !after.closed ==> stream::fed(s, bytes).0 == stream::fed(after, Seq::empty()).0
                && stream::fed(s, bytes).1 == events + stream::fed(after, Seq::empty()).1
        }),
{
    let whole = s.buffer + bytes;
    let at = event.len() as int;
    lemma_first_event(event, mark, rest);
    let start = StreamModel { buffer: whole, ..s };
    let next = StreamModel { buffer: rest, ..s };
    let (after, events) = stream::taken(next, event);
    assert(stream::drained(start) == (
        stream::drained(after).0,
        events + stream::drained(after).1,
    ));
    assert(after.buffer + Seq::<u8>::empty() =~= after.buffer);
    if after.closed {
        assert(stream::drained(after) == (after, Seq::<StreamEventView>::empty()));
        assert(events + Seq::<StreamEventView>::empty() =~= events);
    }
}

/// Where the first event ends, and what is left behind its mark.
proof fn lemma_first_event(event: Seq<u8>, mark: Seq<u8>, rest: Seq<u8>)
    requires
        ends_first(event, mark, rest),
        mark == seq![13u8, 10u8, 13u8, 10u8] || (mark == seq![10u8, 10u8] && !text::mentions(
            event + mark + rest,
            seq![13u8, 10u8, 13u8, 10u8],
        )),
    ensures
        ({
            let whole = event + mark + rest;
            let at = event.len() as int;
            &&& stream::event_boundary(whole) == Some(at)
            &&& whole.take(at) == event
            &&& whole.skip(at).skip(stream::boundary_len(whole.skip(at))) == rest
        }),
{
    let whole = event + mark + rest;
    let at = event.len() as int;
    let crlf = stream::crlf_twice();
    lemma_mark_stands(event, mark, rest);
    if mark == crlf {
        assert(mark.len() == 4);
    } else {
        assert(mark == stream::lf_twice());
        assert(mark.len() == 2);
        assert(stream::first_from(whole, crlf, 0) is None) by {
            stream::lemma_first_from(whole, crlf, 0);
            if let Some(there) = stream::first_from(whole, crlf, 0) {
                assert(text::occurs_at(whole, crlf, there));
            }
        }
        assert(!text::occurs_at(whole.skip(at), crlf, 0)) by {
            if text::occurs_at(whole.skip(at), crlf, 0) {
                assert(whole.skip(at).subrange(0, 4)[0] == 13);
                assert(whole.skip(at)[0] == 10);
            }
        }
    }
}

/// The mark stands behind the first event, and the rest behind the mark.
proof fn lemma_mark_stands(event: Seq<u8>, mark: Seq<u8>, rest: Seq<u8>)
    requires
        ends_first(event, mark, rest),
        mark.len() > 0,
    ensures
        ({
            let whole = event + mark + rest;
            let at = event.len() as int;
            &&& stream::first_from(whole, mark, 0) == Some(at)
            &&& text::occurs_at(whole.skip(at), mark, 0)
            &&& whole.take(at) == event
            &&& whole.skip(at).skip(mark.len() as int) == rest
            &&& whole.skip(at)[0] == mark[0]
        }),
{
    let whole = event + mark + rest;
    let at = event.len() as int;
    stream::lemma_first_from(whole, mark, 0);
    assert(whole.subrange(at, (at + mark.len()) as int) =~= mark);
    assert(text::occurs_at(whole, mark, at));
    let found = stream::first_from(whole, mark, 0)->0;
    assert(!(found < at));
    assert(whole.skip(at).subrange(0, mark.len() as int) =~= mark);
    assert(whole.take(at) =~= event);
    assert(whole.skip(at).skip(mark.len() as int) =~= rest);
}

/// Bytes that complete no event wait for more, and do nothing else.
pub proof fn law_incomplete_events_wait(s: StreamModel, bytes: Seq<u8>)
    requires
        !text::mentions(s.buffer + bytes, seq![13u8, 10u8, 13u8, 10u8]),
        !text::mentions(s.buffer + bytes, seq![10u8, 10u8]),
    ensures
        stream::fed(s, bytes) == (
            StreamModel { buffer: s.buffer + bytes, ..s },
            Seq::<StreamEventView>::empty(),
        ),
{
    let whole = s.buffer + bytes;
    let crlf = stream::crlf_twice();
    let lf = stream::lf_twice();
    assert(crlf =~= seq![13u8, 10u8, 13u8, 10u8]);
    assert(lf =~= seq![10u8, 10u8]);
    stream::lemma_first_from(whole, crlf, 0);
    stream::lemma_first_from(whole, lf, 0);
    if let Some(at) = stream::first_from(whole, crlf, 0) {
        assert(text::occurs_at(whole, crlf, at));
    }
    if let Some(at) = stream::first_from(whole, lf, 0) {
        assert(text::occurs_at(whole, lf, at));
    }
}

/// Of an open reply, a chunk passes on each event of its bytes as it is, in
/// their order, and a failure to read ends it with that failure alone.
pub proof fn law_inputs_are_passed_on(s: StreamModel, chunk: Vec<u8>, why: String, i: int)
    requires
        !s.closed,
    ensures
        ({
            let (fed, events) = stream::fed(s, chunk@);
            let (after, items) = stream::stepped(s, StreamInput::Chunk(chunk));
            &&& after == fed
            &&& items.len() == events.len()
            &&& 0 <= i < events.len() ==> items[i] == Ok::<StreamEventView, ProviderErrorView>(
                events[i],
            )
        }),
        stream::stepped(s, StreamInput::ReadError(why)) == (
            StreamModel { closed: true, ..s },
            seq![
                Err::<StreamEventView, ProviderErrorView>(
                    ProviderErrorView::Network { message: "read sse chunk: "@ + why@ },
                ),
            ],
        ),
{
}

// ---------------------------------------------------------------------------
// What the decoder does
// ---------------------------------------------------------------------------

/// An event says this.
pub open spec fn event_says(event: NormalizedStreamEvent, said: StreamEventView) -> bool {
    match event {
        NormalizedStreamEvent::TextDelta(text) => said == StreamEventView::TextDelta(text@),
        NormalizedStreamEvent::ToolCallReady(call) => said matches StreamEventView::ToolCallReady(
            told,
        ) && call.id@ == told.id && call.name@ == told.name && call.arguments@ == told.arguments,
        NormalizedStreamEvent::Finish { reason, usage } => said == (StreamEventView::Finish {
            reason,
            usage,
        }),
    }
}

/// An item says this.
pub open spec fn item_says(
    item: Result<NormalizedStreamEvent, ProviderError>,
    said: Result<StreamEventView, ProviderErrorView>,
) -> bool {
    match item {
        Ok(event) => said matches Ok(told) && event_says(event, told),
        Err(error) => said == Err::<StreamEventView, ProviderErrorView>(error@),
    }
}

/// A decoder starts with nothing: no bytes, no calls, no word on why the model
/// stopped, no tokens, and a reply that is open.
pub proof fn law_decoders_start_with_nothing(decoder: StreamDecoder, closed: bool)
    requires
        call_ensures(StreamDecoder::new, (), decoder),
        call_ensures(StreamDecoder::is_closed, (&decoder,), closed),
    ensures
        decoder@.buffer.len() == 0,
        decoder@.calls == 0,
        decoder@.finish is None,
        counts(decoder@.usage, None),
        !decoder@.closed && !closed,
{
}

/// Whether a reply has ended is told as it is.
pub proof fn law_decoders_tell_the_end(decoder: StreamDecoder, closed: bool)
    requires
        call_ensures(StreamDecoder::is_closed, (&decoder,), closed),
    ensures
        closed == decoder@.closed,
{
}

/// A decoder does with a partial reply what the partial reply does, and hands
/// out its events.
pub proof fn law_decoders_apply_partial_replies(
    decoder: &mut StreamDecoder,
    event: Json,
    events: Vec<NormalizedStreamEvent>,
    i: int,
)
    requires
        call_ensures(StreamDecoder::apply, (decoder, &event), events),
    ensures
        ({
            let (after, said) = stream::applied(old(decoder)@, event@);
            &&& final(decoder)@ == after
            &&& events@.len() == said.len()
            &&& 0 <= i < said.len() ==> event_says(events@[i], said[i])
        }),
{
    let views = stream::event_views(events@);
    assert(views.len() == events@.len());
    if 0 <= i < views.len() {
        assert(views[i] == events@[i]@);
    }
}

/// A partial reply that carries token counts sets those of the decoder, whatever
/// they were; one that carries none leaves them.
pub proof fn law_decoders_hold_the_last_usage(
    decoder: &mut StreamDecoder,
    event: Json,
    events: Vec<NormalizedStreamEvent>,
)
    requires
        call_ensures(StreamDecoder::apply, (decoder, &event), events),
    ensures
        match event@.get("usageMetadata"@) {
            Some(metadata) => counts(final(decoder)@.usage, Some(metadata)),
            None => final(decoder)@.usage == old(decoder)@.usage,
        },
{
}

/// A decoder does with an input what the input does, and hands out its items.
pub proof fn law_decoders_step_by_inputs(
    decoder: &mut StreamDecoder,
    input: StreamInput,
    items: Vec<Result<NormalizedStreamEvent, ProviderError>>,
    i: int,
)
    requires
        call_ensures(StreamDecoder::step, (decoder, input), items),
    ensures
        ({
            let (after, said) = stream::stepped(old(decoder)@, input);
            &&& final(decoder)@ == after
            &&& items@.len() == said.len()
            &&& 0 <= i < said.len() ==> item_says(items@[i], said[i])
        }),
{
    let views = stream::item_views(items@);
    assert(views.len() == items@.len());
    if 0 <= i < views.len() {
        assert(views[i] == stream::item_view(items@[i]));
    }
}

/// The end of the connection hands out one last event: why the model stopped, as
/// far as it has said, and the token counts that came last.
pub proof fn law_the_end_hands_out_the_last_usage(
    decoder: &mut StreamDecoder,
    items: Vec<Result<NormalizedStreamEvent, ProviderError>>,
)
    requires
        call_ensures(StreamDecoder::step, (decoder, StreamInput::End), items),
        !old(decoder)@.closed,
    ensures
        final(decoder)@.closed,
        items@.len() == 1,
        items@[0] matches Ok(NormalizedStreamEvent::Finish { reason, usage }) && usage == old(
            decoder,
        )@.usage && match old(decoder)@.finish {
            Some(said) => reason == said,
            None => reason == FinishReason::Other,
        },
{
    let views = stream::item_views(items@);
    assert(views.len() == items@.len());
    assert(views[0] == stream::item_view(items@[0]));
}

/// The end of the first event is found where its mark first stands: the first
/// `\r\n\r\n`, or the first `\n\n` in a buffer without one; and the mark is
/// taken off the start of the rest.
pub proof fn law_marks_are_found_and_taken_off(
    event: Seq<u8>,
    mark: Seq<u8>,
    rest: Seq<u8>,
    whole: &[u8],
    found: Option<usize>,
    buffer: &mut Vec<u8>,
    removed: usize,
)
    requires
        ends_first(event, mark, rest),
        mark == seq![13u8, 10u8, 13u8, 10u8] || (mark == seq![10u8, 10u8] && !text::mentions(
            event + mark + rest,
            seq![13u8, 10u8, 13u8, 10u8],
        )),
        whole@ == event + mark + rest,
        call_ensures(stream::find_event_boundary, (whole,), found),
        old(buffer)@ == mark + rest,
        call_ensures(stream::strip_boundary_prefix, (buffer,), removed),
    ensures
        found matches Some(at) && at == event.len(),
        removed == mark.len(),
        final(buffer)@ == rest,
{
    lemma_first_event(event, mark, rest);
    assert(whole@.skip(event.len() as int) =~= mark + rest);
    assert(stream::boundary_len(mark + rest) == mark.len()) by {
        lemma_mark_stands(event, mark, rest);
        assert(whole@.skip(event.len() as int).skip(stream::boundary_len(mark + rest)).len()
            == rest.len());
        assert((mark + rest).len() - stream::boundary_len(mark + rest) == rest.len());
    }
    assert((mark + rest).skip(mark.len() as int) =~= rest);
}

/// In a buffer without a mark no end is found; at the start of one without a
/// mark there nothing is taken off.
pub proof fn law_without_marks_nothing_is_found(
    whole: &[u8],
    found: Option<usize>,
    buffer: &mut Vec<u8>,
    removed: usize,
)
    requires
        !text::mentions(whole@, seq![13u8, 10u8, 13u8, 10u8]),
        !text::mentions(whole@, seq![10u8, 10u8]),
        call_ensures(stream::find_event_boundary, (whole,), found),
        !text::occurs_at(old(buffer)@, seq![13u8, 10u8, 13u8, 10u8], 0),
        !text::occurs_at(old(buffer)@, seq![10u8, 10u8], 0),
        call_ensures(stream::strip_boundary_prefix, (buffer,), removed),
    ensures
        found is None,
        removed == 0,
        final(buffer)@ == old(buffer)@,
{
    let crlf = stream::crlf_twice();
    let lf = stream::lf_twice();
    stream::lemma_first_from(whole@, crlf, 0);
    stream::lemma_first_from(whole@, lf, 0);
    if let Some(at) = stream::first_from(whole@, crlf, 0) {
        assert(text::occurs_at(whole@, crlf, at));
    }
    if let Some(at) = stream::first_from(whole@, lf, 0) {
        assert(text::occurs_at(whole@, lf, at));
    }
    assert(old(buffer)@.skip(0) =~= old(buffer)@);
}

/// The data that are found in the text of an event are its data.
pub proof fn law_data_are_found(said: &str, found: Option<String>)
    requires
        call_ensures(stream::find_event_data, (said,), found),
    ensures
        match found {
            Some(data) => stream::event_data(said@) == Some(data@),
            None => stream::event_data(said@) is None,
        },
{
}

} // verus!
