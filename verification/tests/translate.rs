use azure_openai_adapter::model::{ModelDescriptor, ModelFamily};
use azure_openai_adapter::request::{ToolChoice, supports_tool_choice};
use azure_openai_adapter::request::{
    AzureOpenAiRequestMessage, ChatRequest, Message, Role, ToolDefinition, build_request_payload,
    convert_to_azure_request,
};

fn message(role: Role, content: &str) -> Message {
    Message { role, content: content.to_string() }
}

fn simple_request(messages: Vec<Message>, tools: Vec<ToolDefinition>) -> ChatRequest {
    ChatRequest {
        messages,
        tools,
        tool_choice: None,
        temperature_milli: Some(700),
        stop: vec!["stop".to_string()],
        max_output_tokens: Some(128),
        stream: true,
    }
}

fn a_tool() -> ToolDefinition {
    ToolDefinition {
        name: "lookup".to_string(),
        description: Some("looks a thing up".to_string()),
        parameters: Some("{\"type\":\"object\"}".to_string()),
    }
}

fn custom_model(name: &str) -> ModelDescriptor {
    ModelDescriptor::Custom {
        name: name.to_string(),
        display_name: None,
        max_tokens: 200000,
        max_output_tokens: Some(4096),
        max_completion_tokens: None,
    }
}

#[test]
fn reasoning_model_budget_goes_to_max_completion_tokens() {
    for id in ["o1", "o1-preview", "o1-mini", "o3", "o3-mini"] {
        let request = simple_request(vec![message(Role::User, "hi")], Vec::new());
        let payload = convert_to_azure_request(request, &custom_model(id));
        assert_eq!(payload.max_completion_tokens, Some(128));
        assert_eq!(payload.max_tokens, None);
    }
}

#[test]
fn standard_model_budget_goes_to_max_tokens() {
    for id in ["gpt-4o", "gpt-4o-mini", "o4x"] {
        let request = simple_request(vec![message(Role::User, "hi")], Vec::new());
        let payload = convert_to_azure_request(request, &custom_model(id));
        assert_eq!(payload.max_tokens, Some(128));
        assert_eq!(payload.max_completion_tokens, None);
    }
}

#[test]
fn absent_budget_emits_neither_field() {
    let mut request = simple_request(vec![message(Role::User, "hi")], Vec::new());
    request.max_output_tokens = None;
    let payload = convert_to_azure_request(request, &custom_model("gpt-4o"));
    assert_eq!(payload.max_tokens, None);
    assert_eq!(payload.max_completion_tokens, None);
}

#[test]
fn empty_tool_list_never_emits_parallel_tool_calls() {
    let supporting = ModelDescriptor::Named {
        id: "gpt-4o".to_string(),
        supports_parallel_tool_calls: true,
    };
    let request = simple_request(vec![message(Role::User, "hi")], Vec::new());
    let payload = convert_to_azure_request(request, &supporting);
    assert_eq!(payload.parallel_tool_calls, None);
}

#[test]
fn parallel_tool_calls_needs_support_and_tools() {
    let supporting = ModelDescriptor::Named {
        id: "gpt-4o".to_string(),
        supports_parallel_tool_calls: true,
    };
    let request = simple_request(vec![message(Role::User, "hi")], vec![a_tool()]);
    let payload = convert_to_azure_request(request, &supporting);
    assert_eq!(payload.parallel_tool_calls, Some(true));

    let unsupporting = custom_model("gpt-4o");
    let request = simple_request(vec![message(Role::User, "hi")], vec![a_tool()]);
    let payload = convert_to_azure_request(request, &unsupporting);
    assert_eq!(payload.parallel_tool_calls, None);
}

#[test]
fn missing_system_message_is_prepended_once() {
    let request = simple_request(
        vec![message(Role::User, "question")],
        Vec::new(),
    );
    let payload = convert_to_azure_request(request, &custom_model("gpt-4o"));
    assert_eq!(payload.messages.len(), 2);
    match &payload.messages[0] {
        AzureOpenAiRequestMessage::System { content } => {
            assert_eq!(
                content,
                "Formatting re-enabled - please enclose code blocks with appropriate Markdown tags."
            );
        }
        _ => panic!("expected a system message first"),
    }
    match &payload.messages[1] {
        AzureOpenAiRequestMessage::User { content } => assert_eq!(content, "question"),
        _ => panic!("expected the user message second"),
    }
}

#[test]
fn present_system_message_is_neither_duplicated_nor_reordered() {
    let request = simple_request(
        vec![
            message(Role::System, "house rules"),
            message(Role::User, "question"),
            message(Role::Assistant, "answer"),
        ],
        Vec::new(),
    );
    let payload = convert_to_azure_request(request, &custom_model("gpt-4o"));
    assert_eq!(payload.messages.len(), 3);
    let system_count = payload
        .messages
        .iter()
        .filter(|m| matches!(m, AzureOpenAiRequestMessage::System { .. }))
        .count();
    assert_eq!(system_count, 1);
    match &payload.messages[0] {
        AzureOpenAiRequestMessage::System { content } => assert_eq!(content, "house rules"),
        _ => panic!("system message moved"),
    }
    match &payload.messages[2] {
        AzureOpenAiRequestMessage::Assistant { content, tool_calls } => {
            assert_eq!(content.as_deref(), Some("answer"));
            assert!(tool_calls.is_empty());
        }
        _ => panic!("assistant message moved"),
    }
}

#[test]
fn streaming_is_forced_off_for_o1_deployments() {
    let request = simple_request(vec![message(Role::User, "hi")], Vec::new());
    let payload = convert_to_azure_request(request, &custom_model("o1-preview"));
    assert!(!payload.stream);

    let request = simple_request(vec![message(Role::User, "hi")], Vec::new());
    let payload = convert_to_azure_request(request, &custom_model("o3-mini"));
    assert!(payload.stream);

    let request = simple_request(vec![message(Role::User, "hi")], Vec::new());
    let payload = convert_to_azure_request(request, &custom_model("gpt-4o"));
    assert!(payload.stream);
}

#[test]
fn reasoning_effort_only_for_the_mini_reasoning_deployment() {
    let request = simple_request(vec![message(Role::User, "hi")], Vec::new());
    let payload = build_request_payload(request, &custom_model("o3-mini"), "o3-mini");
    assert_eq!(payload.reasoning_effort.as_deref(), Some("high"));

    let request = simple_request(vec![message(Role::User, "hi")], Vec::new());
    let payload = build_request_payload(request, &custom_model("o1"), "o1");
    assert_eq!(payload.reasoning_effort, None);
}

#[test]
fn temperature_defaults_to_one() {
    let mut request = simple_request(vec![message(Role::User, "hi")], Vec::new());
    request.temperature_milli = None;
    let payload = convert_to_azure_request(request, &custom_model("gpt-4o"));
    assert_eq!(payload.temperature_milli, 1000);

    let request = simple_request(vec![message(Role::User, "hi")], Vec::new());
    let payload = convert_to_azure_request(request, &custom_model("gpt-4o"));
    assert_eq!(payload.temperature_milli, 700);
}

#[test]
fn stop_sequences_and_model_id_are_kept() {
    let request = simple_request(vec![message(Role::User, "hi")], Vec::new());
    let payload = convert_to_azure_request(request, &custom_model("gpt-4o"));
    assert_eq!(payload.model, "gpt-4o");
    assert_eq!(payload.stop, vec!["stop".to_string()]);
}

#[test]
fn o1_models_support_no_tools_and_no_tool_choice() {
    let o1 = custom_model("o1-mini");
    assert!(!o1.supports_tools());
    assert!(!supports_tool_choice(&o1, ToolChoice::Auto));
    let o3 = custom_model("o3-mini");
    assert!(o3.supports_tools());
    assert!(supports_tool_choice(&o3, ToolChoice::Any));
    assert!(supports_tool_choice(&custom_model("gpt-4o"), ToolChoice::Disabled));
}

#[test]
fn the_family_is_computed_once_from_the_id_prefix() {
    assert_eq!(custom_model("o1-preview").family(), ModelFamily::Reasoning);
    assert_eq!(custom_model("o3-mini").family(), ModelFamily::Reasoning);
    assert_eq!(custom_model("gpt-4o").family(), ModelFamily::Standard);
    assert_eq!(custom_model("zo1").family(), ModelFamily::Standard);
}
