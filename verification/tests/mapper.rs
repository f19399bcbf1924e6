use azure_openai_adapter::events::{ChoiceDelta, MessageDelta, StreamEvent, ToolCallChunk, Usage};
use azure_openai_adapter::mapper::{CompletionEvent, EventMapper};

fn event_with(choices: Vec<ChoiceDelta>) -> StreamEvent {
    StreamEvent { model: "m".to_string(), choices, usage: None }
}

fn chunk(
    index: u64,
    id: Option<&str>,
    name: Option<&str>,
    arguments: Option<&str>,
) -> ToolCallChunk {
    ToolCallChunk {
        index,
        id: id.map(|s| s.to_string()),
        name: name.map(|s| s.to_string()),
        arguments: arguments.map(|s| s.to_string()),
    }
}

fn choice(content: Option<&str>, tool_calls: Vec<ToolCallChunk>, finish: Option<&str>) -> ChoiceDelta {
    ChoiceDelta {
        index: 0,
        delta: MessageDelta {
            role: None,
            content: content.map(|s| s.to_string()),
            tool_calls,
        },
        finish_reason: finish.map(|s| s.to_string()),
    }
}

#[test]
fn text_fragments_are_forwarded_verbatim_without_buffering() {
    let mut mapper = EventMapper::new();
    let out = mapper.map_event(&event_with(vec![choice(Some("hel"), Vec::new(), None)]));
    assert_eq!(out.len(), 1);
    match &out[0] {
        CompletionEvent::Text(t) => assert_eq!(t, "hel"),
        _ => panic!("expected a text event"),
    }
    let out = mapper.map_event(&event_with(vec![choice(Some("lo"), Vec::new(), None)]));
    match &out[0] {
        CompletionEvent::Text(t) => assert_eq!(t, "lo"),
        _ => panic!("expected a text event"),
    }
}

#[test]
fn empty_content_and_heartbeats_yield_nothing() {
    let mut mapper = EventMapper::new();
    let out = mapper.map_event(&event_with(vec![choice(Some(""), Vec::new(), None)]));
    assert!(out.is_empty());
    let out = mapper.map_event(&event_with(Vec::new()));
    assert!(out.is_empty());
}

#[test]
fn fragmented_arguments_accumulate_per_index() {
    let mut mapper = EventMapper::new();
    let first = event_with(vec![choice(
        None,
        vec![chunk(0, Some("call_a"), Some("look"), Some("{\"q\":"))],
        None,
    )]);
    let second = event_with(vec![choice(
        None,
        vec![chunk(0, None, None, Some("\"x\"}"))],
        Some("tool_calls"),
    )]);
    let out1 = mapper.map_event(&first);
    assert_eq!(out1.len(), 1);
    let out2 = mapper.map_event(&second);
    assert_eq!(out2.len(), 2);
    assert!(matches!(out2[1], CompletionEvent::Done));

    let call = mapper.tool_call(0).expect("index 0 accumulated");
    assert_eq!(call.id.as_deref(), Some("call_a"));
    assert_eq!(call.name, "look");
    assert_eq!(call.arguments, "{\"q\":\"x\"}");
}

#[test]
fn the_first_id_wins_and_is_never_overwritten() {
    let mut mapper = EventMapper::new();
    let _ = mapper.map_event(&event_with(vec![choice(
        None,
        vec![chunk(2, Some("first"), None, None)],
        None,
    )]));
    let _ = mapper.map_event(&event_with(vec![choice(
        None,
        vec![chunk(2, Some("second"), None, None)],
        None,
    )]));
    let call = mapper.tool_call(2).expect("index 2 accumulated");
    assert_eq!(call.id.as_deref(), Some("first"));
}

#[test]
fn distinct_indexes_accumulate_independently() {
    let mut mapper = EventMapper::new();
    let ev = event_with(vec![choice(
        None,
        vec![
            chunk(0, Some("a"), Some("one"), Some("1")),
            chunk(1, Some("b"), Some("two"), Some("2")),
            chunk(0, None, None, Some("1")),
        ],
        None,
    )]);
    let out = mapper.map_event(&ev);
    assert_eq!(out.len(), 3);
    assert_eq!(mapper.tool_call(0).unwrap().arguments, "11");
    assert_eq!(mapper.tool_call(1).unwrap().arguments, "2");
    assert!(mapper.tool_call(9).is_none());
}

#[test]
fn fragments_are_emitted_per_chunk_with_their_data() {
    let mut mapper = EventMapper::new();
    let ev = event_with(vec![choice(
        Some("thinking"),
        vec![chunk(0, Some("c"), Some("f"), Some("{}"))],
        Some("stop"),
    )]);
    let out = mapper.map_event(&ev);
    assert_eq!(out.len(), 3);
    assert!(matches!(&out[0], CompletionEvent::Text(t) if t == "thinking"));
    match &out[1] {
        CompletionEvent::ToolCallDelta { index, id, name_fragment, arguments_fragment } => {
            assert_eq!(*index, 0);
            assert_eq!(id.as_deref(), Some("c"));
            assert_eq!(name_fragment.as_deref(), Some("f"));
            assert_eq!(arguments_fragment.as_deref(), Some("{}"));
        }
        _ => panic!("expected the tool-call delta second"),
    }
    assert!(matches!(out[2], CompletionEvent::Done));
}

#[test]
fn usage_rides_along_unchanged() {
    let ev = StreamEvent {
        model: "m".to_string(),
        choices: Vec::new(),
        usage: Some(Usage { prompt_tokens: 1, completion_tokens: 2, total_tokens: 3 }),
    };
    assert_eq!(ev.usage.unwrap().total_tokens, 3);
}
