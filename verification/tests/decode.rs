use azure_openai_adapter::sse::{
    ChunkOutcome, DecodedItem, LineAction, StreamDecoder, classify_line, decode_body_lines,
    parse_stream_chunk,
};

fn lines(raw: &[&str]) -> Vec<String> {
    raw.iter().map(|s| s.to_string()).collect()
}

const CHUNK: &str =
    "{\"model\":\"gpt-4o\",\"choices\":[{\"index\":0,\"delta\":{\"content\":\"hi\"},\"finish_reason\":null}]}";

#[test]
fn single_chunk_then_blank_then_done_yields_one_event() {
    let body = lines(&[&format!("data: {}", CHUNK), "", "data: [DONE]"]);
    let (items, finished) = decode_body_lines(&body);
    assert!(finished);
    assert_eq!(items.len(), 1);
    match &items[0] {
        DecodedItem::Event(ev) => {
            assert_eq!(ev.model, "gpt-4o");
            assert_eq!(ev.choices.len(), 1);
            assert_eq!(ev.choices[0].delta.content.as_deref(), Some("hi"));
            assert_eq!(ev.choices[0].finish_reason, None);
        }
        _ => panic!("expected one event"),
    }
}

#[test]
fn malformed_chunk_between_two_valid_ones_is_skipped_not_fatal() {
    let body = lines(&[
        &format!("data: {}", CHUNK),
        "data: {not json",
        &format!("data: {}", CHUNK),
        "data: [DONE]",
    ]);
    let (items, finished) = decode_body_lines(&body);
    assert!(finished);
    assert_eq!(items.len(), 3);
    let successes = items
        .iter()
        .filter(|it| matches!(it, DecodedItem::Event(_)))
        .count();
    assert_eq!(successes, 2);
    match &items[1] {
        DecodedItem::Malformed(payload) => assert_eq!(payload, "{not json"),
        _ => panic!("the middle item should be the malformed one"),
    }
}

#[test]
fn non_data_lines_are_silently_dropped() {
    let body = lines(&[
        "event: ping",
        ": a comment",
        "id: 7",
        &format!("data: {}", CHUNK),
        "data: [DONE]",
    ]);
    let (items, finished) = decode_body_lines(&body);
    assert!(finished);
    assert_eq!(items.len(), 1);
}

#[test]
fn classify_line_trims_whitespace() {
    assert!(matches!(classify_line("   \t"), LineAction::Ignored));
    assert!(matches!(classify_line("data: [DONE]\r"), LineAction::Stop));
    match classify_line("  data: {\"a\":1}\r") {
        LineAction::Chunk(p) => assert_eq!(p, "{\"a\":1}"),
        _ => panic!("expected a chunk"),
    }
}

#[test]
fn missing_terminator_reports_unfinished() {
    let body = lines(&[&format!("data: {}", CHUNK)]);
    let (items, finished) = decode_body_lines(&body);
    assert!(!finished);
    assert_eq!(items.len(), 1);
}

#[test]
fn decoder_drops_everything_after_done() {
    let mut decoder = StreamDecoder::new();
    assert!(decoder.feed_line("data: [DONE]").is_none());
    assert!(decoder.finished());
    assert!(decoder.feed_line(&format!("data: {}", CHUNK)).is_none());
    assert!(decoder.finished());
}

#[test]
fn in_stream_error_envelope_becomes_a_server_error_item() {
    match parse_stream_chunk("{\"error\":{\"message\":\"boom\"}}") {
        ChunkOutcome::ServerError(msg) => assert_eq!(msg, "boom"),
        _ => panic!("expected a server error"),
    }
    match parse_stream_chunk("{\"error\":\"plain text\"}") {
        ChunkOutcome::ServerError(msg) => assert_eq!(msg, "plain text"),
        _ => panic!("expected a server error"),
    }
}

#[test]
fn wrong_shape_is_malformed_even_when_valid_json() {
    assert!(matches!(parse_stream_chunk("42"), ChunkOutcome::Malformed));
    assert!(matches!(
        parse_stream_chunk("{\"model\":\"m\"}"),
        ChunkOutcome::Malformed
    ));
    assert!(matches!(
        parse_stream_chunk("{\"model\":7,\"choices\":[]}"),
        ChunkOutcome::Malformed
    ));
}

#[test]
fn tool_call_fragments_and_usage_are_decoded() {
    let chunk = "{\"model\":\"m\",\"choices\":[{\"index\":0,\"delta\":{\"role\":\"assistant\",\
        \"tool_calls\":[{\"index\":0,\"id\":\"call_1\",\"function\":{\"name\":\"look\",\"arguments\":\"{\\\"q\\\":\"}}]},\
        \"finish_reason\":null}],\"usage\":{\"prompt_tokens\":3,\"completion_tokens\":5,\"total_tokens\":8}}";
    match parse_stream_chunk(chunk) {
        ChunkOutcome::Event(ev) => {
            let usage = ev.usage.expect("usage should be present");
            assert_eq!(usage.prompt_tokens, 3);
            assert_eq!(usage.completion_tokens, 5);
            assert_eq!(usage.total_tokens, 8);
            let chunks = &ev.choices[0].delta.tool_calls;
            assert_eq!(chunks.len(), 1);
            assert_eq!(chunks[0].index, 0);
            assert_eq!(chunks[0].id.as_deref(), Some("call_1"));
            assert_eq!(chunks[0].name.as_deref(), Some("look"));
            assert_eq!(chunks[0].arguments.as_deref(), Some("{\"q\":"));
        }
        _ => panic!("expected an event"),
    }
}
