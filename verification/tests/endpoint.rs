use azure_openai_adapter::auth::Credentials;
use azure_openai_adapter::endpoint::{api_key_header, completions_url, completions_url_for, resource_url};
use azure_openai_adapter::events::{ChoiceDelta, MessageDelta, StreamEvent};
use azure_openai_adapter::events::extract_text_from_azure_events;
use azure_openai_adapter::limiter::RequestLimiter;
use azure_openai_adapter::model::{AvailableModel, AzureOpenAiSettings, ModelDescriptor, provider_id, provider_name};
use azure_openai_adapter::provider::plan_request;
use azure_openai_adapter::request::{ChatRequest, Message, Role};

fn credentials() -> Credentials {
    Credentials {
        api_key: "secret".to_string(),
        api_url: "https://res.openai.azure.com/".to_string(),
        deployment_name: "o3-mini".to_string(),
        api_version: "2024-02-15-preview".to_string(),
    }
}

#[test]
fn the_url_addresses_the_deployment_with_the_api_version() {
    let url = completions_url("https://res.openai.azure.com/", "dep", "2024-02-15-preview");
    assert_eq!(
        url,
        "https://res.openai.azure.com/openai/deployments/dep/chat/completions?api-version=2024-02-15-preview"
    );
    let url = completions_url("https://res.openai.azure.com///", "dep", "v");
    assert_eq!(
        url,
        "https://res.openai.azure.com/openai/deployments/dep/chat/completions?api-version=v"
    );
}

#[test]
fn the_key_travels_in_the_api_key_header() {
    let (name, value) = api_key_header(&credentials());
    assert_eq!(name, "api-key");
    assert_eq!(value, "secret");
}

#[test]
fn a_plan_carries_translation_url_header_and_mode() {
    let request = ChatRequest {
        messages: vec![Message { role: Role::User, content: "hi".to_string() }],
        tools: Vec::new(),
        tool_choice: None,
        temperature_milli: None,
        stop: Vec::new(),
        max_output_tokens: Some(64),
        stream: true,
    };
    let model = ModelDescriptor::Custom {
        name: "o3-mini".to_string(),
        display_name: None,
        max_tokens: 200000,
        max_output_tokens: Some(64),
        max_completion_tokens: None,
    };
    let plan = plan_request(request, &model, &credentials());
    assert_eq!(plan.url, completions_url_for(&credentials()));
    assert_eq!(plan.header_name, "api-key");
    assert_eq!(plan.header_value, "secret");
    assert!(plan.streaming);
    assert_eq!(plan.payload.reasoning_effort.as_deref(), Some("high"));
    assert_eq!(plan.payload.max_completion_tokens, Some(64));
    assert_eq!(plan.payload.max_tokens, None);
}

#[test]
fn a_settings_entry_becomes_a_custom_descriptor() {
    let entry = AvailableModel {
        name: "gpt-4o".to_string(),
        deployment_name: "prod-4o".to_string(),
        display_name: Some("GPT-4o".to_string()),
        max_tokens: 128000,
        max_output_tokens: Some(4096),
        max_completion_tokens: None,
    };
    let descriptor = entry.to_descriptor();
    assert_eq!(descriptor.id(), "gpt-4o");
    assert!(!descriptor.is_reasoning());
    assert!(!descriptor.forbids_streaming());
    assert_eq!(descriptor.max_output_tokens(), Some(4096));
}

#[test]
fn the_limiter_admits_in_arrival_order_up_to_capacity() {
    let mut limiter = RequestLimiter::new(2);
    let t1 = limiter.enqueue();
    let t2 = limiter.enqueue();
    let t3 = limiter.enqueue();
    assert!(limiter.ready(t1));
    assert!(!limiter.ready(t2));
    limiter.acquire(t1);
    assert!(limiter.ready(t2));
    limiter.acquire(t2);
    assert_eq!(limiter.in_flight(), 2);
    assert!(!limiter.ready(t3));
    limiter.release();
    assert!(limiter.ready(t3));
    limiter.acquire(t3);
    assert_eq!(limiter.in_flight(), 2);
}

#[test]
fn extract_text_takes_the_last_choice_of_each_event() {
    let make = |content: Option<&str>| StreamEvent {
        model: "m".to_string(),
        choices: vec![ChoiceDelta {
            index: 0,
            delta: MessageDelta {
                role: None,
                content: content.map(|s| s.to_string()),
                tool_calls: Vec::new(),
            },
            finish_reason: None,
        }],
        usage: None,
    };
    let events = vec![
        make(Some("a")),
        make(None),
        StreamEvent { model: "m".to_string(), choices: Vec::new(), usage: None },
        make(Some("b")),
    ];
    let texts = extract_text_from_azure_events(&events);
    assert_eq!(texts, vec!["a".to_string(), "b".to_string()]);
}

#[test]
fn settings_provide_models_in_order_and_the_first_as_default() {
    let settings = AzureOpenAiSettings {
        resource_name: "res".to_string(),
        api_version: "v1".to_string(),
        available_models: vec![
            AvailableModel {
                name: "gpt-4o".to_string(),
                deployment_name: "prod-4o".to_string(),
                display_name: None,
                max_tokens: 128000,
                max_output_tokens: Some(4096),
                max_completion_tokens: None,
            },
            AvailableModel {
                name: "o1".to_string(),
                deployment_name: "prod-o1".to_string(),
                display_name: None,
                max_tokens: 200000,
                max_output_tokens: None,
                max_completion_tokens: Some(8192),
            },
        ],
    };
    let models = settings.provided_models();
    assert_eq!(models.len(), 2);
    assert_eq!(models[0].0.id(), "gpt-4o");
    assert_eq!(models[0].1, "prod-4o");
    assert_eq!(models[1].0.id(), "o1");
    assert!(models[1].0.is_reasoning());
    assert!(models[1].0.forbids_streaming());

    let (default, deployment) = settings.default_model().expect("a model is configured");
    assert_eq!(default.id(), "gpt-4o");
    assert_eq!(deployment, "prod-4o");

    let empty = AzureOpenAiSettings {
        resource_name: "res".to_string(),
        api_version: "v1".to_string(),
        available_models: Vec::new(),
    };
    assert!(empty.default_model().is_none());
}

#[test]
fn a_resource_name_expands_to_its_base_url() {
    assert_eq!(resource_url("myres"), "https://myres.openai.azure.com");
    assert_eq!(
        completions_url(&resource_url("myres"), "dep", "v1"),
        "https://myres.openai.azure.com/openai/deployments/dep/chat/completions?api-version=v1"
    );
}

#[test]
fn provider_identity_and_telemetry() {
    assert_eq!(provider_id(), "azure_openai");
    assert_eq!(provider_name(), "Azure OpenAI");
    let model = ModelDescriptor::Custom {
        name: "gpt-4o".to_string(),
        display_name: Some("GPT-4o".to_string()),
        max_tokens: 128000,
        max_output_tokens: None,
        max_completion_tokens: None,
    };
    assert_eq!(model.telemetry_id(), "azure_openai/gpt-4o");
    assert_eq!(model.display_name(), "GPT-4o");
}
