use azure_openai_adapter::error::CompletionError;
use azure_openai_adapter::mapper::{CompletionEvent, EventMapper};
use azure_openai_adapter::response::{adapt_response_to_stream, complete_from_body, parse_response};

const TWO_TOOL_CALLS_NULL_CONTENT: &str = "{\"id\":\"r1\",\"object\":\"chat.completion\",\
    \"created\":1,\"model\":\"gpt-4o\",\"choices\":[{\"index\":0,\"message\":{\"role\":\"assistant\",\
    \"content\":null,\"tool_calls\":[\
    {\"id\":\"call_a\",\"type\":\"function\",\"function\":{\"name\":\"one\",\"arguments\":\"{}\"}},\
    {\"id\":\"call_b\",\"type\":\"function\",\"function\":{\"name\":\"two\",\"arguments\":\"{\\\"x\\\":1}\"}}\
    ]},\"finish_reason\":\"tool_calls\"}],\
    \"usage\":{\"prompt_tokens\":10,\"completion_tokens\":20,\"total_tokens\":30}}";

#[test]
fn null_content_with_two_tool_calls_yields_no_text_and_two_deltas() {
    let event = complete_from_body(200, TWO_TOOL_CALLS_NULL_CONTENT).expect("should succeed");
    assert_eq!(event.model, "gpt-4o");
    assert_eq!(event.choices.len(), 1);
    assert_eq!(event.choices[0].delta.content, None);
    assert_eq!(event.choices[0].delta.tool_calls.len(), 2);

    let mut mapper = EventMapper::new();
    let out = mapper.map_event(&event);
    let texts = out
        .iter()
        .filter(|e| matches!(e, CompletionEvent::Text(_)))
        .count();
    let deltas = out
        .iter()
        .filter(|e| matches!(e, CompletionEvent::ToolCallDelta { .. }))
        .count();
    assert_eq!(texts, 0);
    assert_eq!(deltas, 2);
}

#[test]
fn tool_call_fragments_carry_position_indexes_and_full_data() {
    let response = parse_response(TWO_TOOL_CALLS_NULL_CONTENT).expect("should parse");
    let event = adapt_response_to_stream(response);
    let chunks = &event.choices[0].delta.tool_calls;
    assert_eq!(chunks[0].index, 0);
    assert_eq!(chunks[0].id.as_deref(), Some("call_a"));
    assert_eq!(chunks[0].name.as_deref(), Some("one"));
    assert_eq!(chunks[0].arguments.as_deref(), Some("{}"));
    assert_eq!(chunks[1].index, 1);
    assert_eq!(chunks[1].id.as_deref(), Some("call_b"));
    assert_eq!(event.choices[0].finish_reason.as_deref(), Some("tool_calls"));
    let usage = event.usage.expect("usage should be carried");
    assert_eq!(usage.total_tokens, 30);
}

#[test]
fn plain_text_response_becomes_one_text_bearing_event() {
    let body = "{\"id\":\"r2\",\"object\":\"chat.completion\",\"created\":2,\"model\":\"m\",\
        \"choices\":[{\"index\":0,\"message\":{\"role\":\"assistant\",\"content\":\"hello\"},\
        \"finish_reason\":\"stop\"}],\
        \"usage\":{\"prompt_tokens\":1,\"completion_tokens\":1,\"total_tokens\":2}}";
    let event = complete_from_body(200, body).expect("should succeed");
    assert_eq!(event.choices[0].delta.content.as_deref(), Some("hello"));
    assert_eq!(event.choices[0].finish_reason.as_deref(), Some("stop"));
}

#[test]
fn empty_assistant_content_becomes_no_text_fragment() {
    let body = "{\"id\":\"r3\",\"object\":\"chat.completion\",\"created\":3,\"model\":\"m\",\
        \"choices\":[{\"index\":0,\"message\":{\"role\":\"assistant\",\"content\":\"\"},\
        \"finish_reason\":\"stop\"}],\
        \"usage\":{\"prompt_tokens\":1,\"completion_tokens\":0,\"total_tokens\":1}}";
    let event = complete_from_body(200, body).expect("should succeed");
    assert_eq!(event.choices[0].delta.content, None);
}

#[test]
fn zero_choices_on_success_is_a_hard_error() {
    let body = "{\"id\":\"r4\",\"object\":\"chat.completion\",\"created\":4,\"model\":\"m\",\
        \"choices\":[],\
        \"usage\":{\"prompt_tokens\":1,\"completion_tokens\":0,\"total_tokens\":1}}";
    match complete_from_body(200, body) {
        Err(CompletionError::EmptyChoices) => {}
        _ => panic!("expected the empty-choices error"),
    }
}

#[test]
fn malformed_whole_response_is_fatal() {
    match complete_from_body(200, "{oops") {
        Err(CompletionError::MalformedResponse(detail)) => assert_eq!(detail, "{oops"),
        _ => panic!("expected a malformed-response error"),
    }
    match complete_from_body(200, "{\"id\":\"x\"}") {
        Err(CompletionError::MalformedResponse(_)) => {}
        _ => panic!("a wrong shape is also fatal here"),
    }
}

#[test]
fn failure_status_with_envelope_is_classified() {
    let body = "{\"error\":{\"message\":\"quota exceeded\",\"type\":\"insufficient_quota\",\
        \"code\":\"429\"}}";
    match complete_from_body(429, body) {
        Err(CompletionError::Http { status, message, error_type, code }) => {
            assert_eq!(status, 429);
            assert_eq!(message, "quota exceeded");
            assert_eq!(error_type.as_deref(), Some("insufficient_quota"));
            assert_eq!(code.as_deref(), Some("429"));
        }
        _ => panic!("expected a classified HTTP error"),
    }
}

#[test]
fn failure_status_without_envelope_carries_the_raw_body() {
    match complete_from_body(500, "gateway timeout") {
        Err(CompletionError::Http { status, message, error_type, code }) => {
            assert_eq!(status, 500);
            assert_eq!(message, "gateway timeout");
            assert_eq!(error_type, None);
            assert_eq!(code, None);
        }
        _ => panic!("expected the raw fallback"),
    }
}

#[test]
fn envelope_with_missing_optionals_still_classifies() {
    let body = "{\"error\":{\"message\":\"bad key\"}}";
    match complete_from_body(401, body) {
        Err(CompletionError::Http { message, error_type, code, .. }) => {
            assert_eq!(message, "bad key");
            assert_eq!(error_type, None);
            assert_eq!(code, None);
        }
        _ => panic!("expected a classified HTTP error"),
    }
}
