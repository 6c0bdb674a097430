use mcpg_plugin_backend_llm_gemini::adapter::decode_response;
use mcpg_plugin_backend_llm_gemini::json::Json;
use mcpg_plugin_backend_llm_gemini::normalized::{
    FinishReason, NormalizedStreamEvent, ProviderError, TokenUsage,
};
use mcpg_plugin_backend_llm_gemini::stream::{
    find_event_boundary, find_event_data, strip_boundary_prefix, StreamDecoder, StreamInput,
};

type Item = Result<NormalizedStreamEvent, ProviderError>;

fn feed(decoder: &mut StreamDecoder, text: &str) -> Vec<Item> {
    decoder.step(StreamInput::Chunk(text.as_bytes().to_vec()))
}

fn shown(items: &[Item]) -> Vec<String> {
    items.iter().map(|item| format!("{:?}", item)).collect()
}

fn text_of(item: &Item) -> &str {
    match item {
        Ok(NormalizedStreamEvent::TextDelta(s)) => s,
        other => panic!("no text: {:?}", other),
    }
}

fn finish_of(item: &Item) -> (FinishReason, TokenUsage) {
    match item {
        Ok(NormalizedStreamEvent::Finish { reason, usage }) => (*reason, *usage),
        other => panic!("no end: {:?}", other),
    }
}

fn text_event(text: &str) -> String {
    format!(
        "data: {{\"candidates\": [{{\"content\": {{\"parts\": [{{\"text\": \"{}\"}}]}}}}]}}\n\n",
        text
    )
}

#[test]
fn boundaries_are_found_and_stripped() {
    assert_eq!(find_event_boundary(b"data: a\n\nrest"), Some(7));
    assert_eq!(find_event_boundary(b"data: a\r\n\r\nrest"), Some(7));
    assert_eq!(find_event_boundary(b"a\n\nb\r\n\r\nc"), Some(4));
    assert_eq!(find_event_boundary(b"a\nb\r\n"), None);
    assert_eq!(find_event_boundary(b""), None);
    let mut buf = b"\r\n\r\nrest".to_vec();
    assert_eq!(strip_boundary_prefix(&mut buf), 4);
    assert_eq!(buf, b"rest");
    let mut buf = b"\n\n\nrest".to_vec();
    assert_eq!(strip_boundary_prefix(&mut buf), 2);
    assert_eq!(buf, b"\nrest");
    let mut buf = b"rest".to_vec();
    assert_eq!(strip_boundary_prefix(&mut buf), 0);
    assert_eq!(buf, b"rest");
}

#[test]
fn data_is_what_follows_the_first_data_field() {
    assert_eq!(find_event_data("event: x\r\ndata:   y \ndata: z").unwrap(), "y ");
    assert_eq!(find_event_data("data:y\r\n").unwrap(), "y");
    assert_eq!(find_event_data("data:y\r").unwrap(), "y\r");
    assert_eq!(find_event_data(" data: y"), None);
    assert_eq!(find_event_data(": comment"), None);
    assert_eq!(find_event_data(""), None);
}

#[test]
fn texts_come_as_they_arrive_and_the_end_comes_last() {
    let mut d = StreamDecoder::new();
    let first = feed(&mut d, &text_event("Hel"));
    assert_eq!(first.len(), 1);
    assert_eq!(text_of(&first[0]), "Hel");
    let second = feed(
        &mut d,
        "data: {\"candidates\": [{\"content\": {\"parts\": [{\"text\": \"lo\"}]}, \"finishReason\": \"STOP\"}], \"usageMetadata\": {\"promptTokenCount\": 4, \"candidatesTokenCount\": 2, \"cachedContentTokenCount\": 1}}\n\n",
    );
    assert_eq!(second.len(), 1);
    assert_eq!(text_of(&second[0]), "lo");
    assert!(!d.is_closed());
    let last = d.step(StreamInput::End);
    assert_eq!(last.len(), 1);
    let (reason, usage) = finish_of(&last[0]);
    assert_eq!(reason, FinishReason::Stop);
    assert_eq!(usage.input_tokens, 4);
    assert_eq!(usage.output_tokens, 2);
    assert_eq!(usage.cached_input_tokens, 1);
    assert!(d.is_closed());
    assert!(d.step(StreamInput::End).is_empty());
    assert!(feed(&mut d, &text_event("late")).is_empty());
}

#[test]
fn the_end_mark_ends_the_reply() {
    let mut d = StreamDecoder::new();
    let stream = format!("{}data:  [DONE] \n\n{}", text_event("a"), text_event("b"));
    let items = feed(&mut d, &stream);
    assert_eq!(items.len(), 2);
    assert_eq!(text_of(&items[0]), "a");
    assert_eq!(finish_of(&items[1]).0, FinishReason::Other);
    assert!(d.is_closed());
    assert!(d.step(StreamInput::End).is_empty());
}

#[test]
fn tool_calls_are_numbered_over_the_whole_stream() {
    let mut d = StreamDecoder::new();
    let event = "data: {\"candidates\": [{\"content\": {\"parts\": [{\"text\": \"\", \"functionCall\": {\"name\": \"f\", \"args\": {\"a\": 1}}}, {\"functionCall\": {}}]}, \"finishReason\": \"STOP\"}]}\r\n\r\n";
    let mut ids = Vec::new();
    for _ in 0..6 {
        for item in feed(&mut d, event) {
            match item {
                Ok(NormalizedStreamEvent::ToolCallReady(call)) => ids.push((call.id, call.name)),
                other => panic!("no call: {:?}", other),
            }
        }
    }
    assert_eq!(ids.len(), 12);
    assert_eq!(ids[0], ("gemini_call_1".to_string(), "f".to_string()));
    assert_eq!(ids[1], ("gemini_call_2".to_string(), "".to_string()));
    assert_eq!(ids[9].0, "gemini_call_10");
    assert_eq!(ids[11].0, "gemini_call_12");
    let last = d.step(StreamInput::End);
    assert_eq!(finish_of(&last[0]).0, FinishReason::ToolCalls);
}

#[test]
fn finish_reasons_of_a_stream() {
    for (name, reason) in [
        ("STOP", FinishReason::Stop),
        ("MAX_TOKENS", FinishReason::Length),
        ("SAFETY", FinishReason::ContentFilter),
        ("TOOL_USE", FinishReason::Other),
    ] {
        let mut d = StreamDecoder::new();
        let event = format!("data: {{\"candidates\": [{{\"finishReason\": \"{}\"}}]}}\n\n", name);
        assert!(feed(&mut d, &event).is_empty());
        assert_eq!(finish_of(&d.step(StreamInput::End)[0]).0, reason);
    }
}

#[test]
fn what_is_no_partial_reply_is_passed_over() {
    let mut d = StreamDecoder::new();
    assert!(feed(&mut d, ": ping\n\ndata: not json\n\ndata: {}\n\n").is_empty());
    let invalid = d.step(StreamInput::Chunk(b"data: \xff\n\n".to_vec()));
    assert!(invalid.is_empty());
    assert!(feed(&mut d, "data: {\"candidates\": []}\n\n").is_empty());
    assert!(!d.is_closed());
}

#[test]
fn a_failure_to_read_is_reported_once() {
    let mut d = StreamDecoder::new();
    let items = d.step(StreamInput::ReadError("reset".into()));
    assert_eq!(items.len(), 1);
    match &items[0] {
        Err(e) => {
            assert_eq!(e.message(), "read sse chunk: reset");
            assert!(e.is_retryable());
        }
        other => panic!("no failure: {:?}", other),
    }
    assert!(d.step(StreamInput::End).is_empty());
}

#[test]
fn how_a_stream_is_cut_makes_no_difference() {
    let stream = format!(
        "{}{}data: {{\"candidates\": [{{\"content\": {{\"parts\": [{{\"functionCall\": {{\"name\": \"f\"}}}}]}}, \"finishReason\": \"STOP\"}}]}}\n\ndata: [DONE]\n\n",
        text_event("a\u{e9}"),
        text_event("b")
    );
    let bytes = stream.as_bytes();
    let mut whole = StreamDecoder::new();
    let all = shown(&whole.step(StreamInput::Chunk(bytes.to_vec())));
    assert_eq!(all.len(), 4);
    for size in 1..bytes.len() {
        let mut d = StreamDecoder::new();
        let mut items = Vec::new();
        for chunk in bytes.chunks(size) {
            items.extend(shown(&d.step(StreamInput::Chunk(chunk.to_vec()))));
        }
        assert_eq!(items, all);
    }
}

#[test]
fn mixed_line_ends_are_the_exception() {
    let stream = format!("{}{}data: {{}}\r\n\r\n", text_event("a"), text_event("b"));
    let cut = text_event("a").len();
    let mut whole = StreamDecoder::new();
    let together = feed(&mut whole, &stream);
    assert_eq!(together.len(), 1);
    let mut cut_up = StreamDecoder::new();
    let mut apart = feed(&mut cut_up, &stream[..cut]);
    apart.extend(feed(&mut cut_up, &stream[cut..]));
    assert_eq!(apart.len(), 2);
}

#[test]
fn a_partial_reply_can_be_applied_by_itself() {
    let mut d = StreamDecoder::new();
    let event = Json::parse_str("{\"usageMetadata\": {\"promptTokenCount\": 9}}").unwrap();
    assert!(d.apply(&event).is_empty());
    assert_eq!(finish_of(&d.step(StreamInput::End)[0]).1.input_tokens, 9);
}

#[test]
fn a_stream_says_what_the_whole_reply_says() {
    let reply = "{\"candidates\": [{\"content\": {\"parts\": [{\"text\": \"a\"}, {\"functionCall\": {\"name\": \"f\"}}, {\"text\": \"\"}, {\"text\": \"b\"}]}, \"finishReason\": \"STOP\"}]}";
    let json = Json::parse_str(reply).unwrap();
    let whole = decode_response(&json).unwrap();
    let mut d = StreamDecoder::new();
    let mut text = String::new();
    let mut calls = Vec::new();
    for event in d.apply(&json) {
        match event {
            NormalizedStreamEvent::TextDelta(s) => text.push_str(&s),
            NormalizedStreamEvent::ToolCallReady(call) => calls.push((call.id, call.name)),
            other => panic!("an end: {:?}", other),
        }
    }
    assert_eq!(text, whole.content);
    assert_eq!(calls.len(), whole.tool_calls.len());
    assert_eq!(calls[0].0, whole.tool_calls[0].id);
    assert_eq!(calls[0].1, whole.tool_calls[0].name);
    assert_eq!(finish_of(&d.step(StreamInput::End)[0]).0, whole.finish_reason);
}
