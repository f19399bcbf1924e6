//! Translation of a provider-agnostic chat request into the Azure wire
//! payload, applying the model-family quirks: output-token-budget routing,
//! gating of `parallel_tool_calls`, forced non-streaming for models that
//! reject streams, and the `reasoning_effort` injection for the recognized
//! mini-reasoning deployment.

use vstd::prelude::*;
use crate::model::{ModelDescriptor, ModelFamily, spec_family, spec_forbids_streaming,
    spec_is_reasoning};
use crate::text;

verus! {

/// A message role of the chat protocol.
#[derive(Clone, Copy, PartialEq, Eq, Structural, Debug)]
pub enum Role {
    System,
    User,
    Assistant,
    Tool,
}

/// One message of a provider-agnostic chat request.
pub struct Message {
    pub role: Role,
    pub content: String,
}

pub struct MessageV {
    pub role: Role,
    pub content: Seq<char>,
}

impl View for Message {
    type V = MessageV;

    open spec fn view(&self) -> MessageV {
        MessageV { role: self.role, content: self.content@ }
    }
}

/// A tool the model may call; `parameters` carries the JSON schema text.
pub struct ToolDefinition {
    pub name: String,
    pub description: Option<String>,
    pub parameters: Option<String>,
}

pub struct ToolDefinitionV {
    pub name: Seq<char>,
    pub description: Option<Seq<char>>,
    pub parameters: Option<Seq<char>>,
}

impl View for ToolDefinition {
    type V = ToolDefinitionV;

    open spec fn view(&self) -> ToolDefinitionV {
        ToolDefinitionV {
            name: self.name@,
            description: match self.description {
                Some(ref d) => Some(d@),
                None => None,
            },
            parameters: match self.parameters {
                Some(ref p) => Some(p@),
                None => None,
            },
        }
    }
}

/// How the model is told to pick among the offered tools.
#[derive(Clone, Copy, PartialEq, Eq, Structural, Debug)]
pub enum ToolChoice {
    Auto,
    Any,
    Disabled,
}

/// A completed tool call as it appears in an assistant message.
pub struct ToolCall {
    pub id: String,
    pub name: String,
    pub arguments: String,
}

pub struct ToolCallV {
    pub id: Seq<char>,
    pub name: Seq<char>,
    pub arguments: Seq<char>,
}

impl View for ToolCall {
    type V = ToolCallV;

    open spec fn view(&self) -> ToolCallV {
        ToolCallV { id: self.id@, name: self.name@, arguments: self.arguments@ }
    }
}

/// A message in the Azure wire shape. An assistant message may carry
/// `content = null` beside its tool calls.
pub enum AzureOpenAiRequestMessage {
    Assistant { content: Option<String>, tool_calls: Vec<ToolCall> },
    User { content: String },
    System { content: String },
    Tool { content: String, tool_call_id: String },
}

pub enum AzureOpenAiRequestMessageV {
    Assistant { content: Option<Seq<char>>, tool_calls: Seq<ToolCallV> },
    User { content: Seq<char> },
    System { content: Seq<char> },
    Tool { content: Seq<char>, tool_call_id: Seq<char> },
}

impl View for AzureOpenAiRequestMessage {
    type V = AzureOpenAiRequestMessageV;

    open spec fn view(&self) -> AzureOpenAiRequestMessageV {
        match self {
            AzureOpenAiRequestMessage::Assistant { content, tool_calls } => (
                AzureOpenAiRequestMessageV::Assistant {
                    content: match content {
                        Some(c) => Some(c@),
                        None => None,
                    },
                    tool_calls: tool_calls@.map_values(|t: ToolCall| t@),
                }
            ),
            AzureOpenAiRequestMessage::User { content } => (
                AzureOpenAiRequestMessageV::User { content: content@ }
            ),
            AzureOpenAiRequestMessage::System { content } => (
                AzureOpenAiRequestMessageV::System { content: content@ }
            ),
            AzureOpenAiRequestMessage::Tool { content, tool_call_id } => (
                AzureOpenAiRequestMessageV::Tool { content: content@, tool_call_id: tool_call_id@ }
            ),
        }
    }
}

/// A provider-agnostic chat request, constructed per call and consumed
/// once. The temperature is carried in thousandths so that the verified
/// core holds no floating-point value; the transport layer divides by
/// a thousand when it serializes.
pub struct ChatRequest {
    pub messages: Vec<Message>,
    pub tools: Vec<ToolDefinition>,
    pub tool_choice: Option<ToolChoice>,
    pub temperature_milli: Option<u32>,
    pub stop: Vec<String>,
    pub max_output_tokens: Option<u64>,
    pub stream: bool,
}

/// The Azure wire request. An `Option` field whose value is `None` is
/// omitted entirely from the serialized payload, never sent as `null`.
pub struct AzureOpenAiRequest {
    pub model: String,
    pub messages: Vec<AzureOpenAiRequestMessage>,
    pub stream: bool,
    pub max_tokens: Option<u64>,
    pub max_completion_tokens: Option<u64>,
    pub stop: Vec<String>,
    pub temperature_milli: u32,
    pub tool_choice: Option<ToolChoice>,
    pub parallel_tool_calls: Option<bool>,
    pub tools: Vec<ToolDefinition>,
    pub reasoning_effort: Option<String>,
}

/// The system message prepended when the request carries none.
pub open spec fn spec_default_system_message() -> Seq<char> {
    "Formatting re-enabled - please enclose code blocks with appropriate Markdown tags."@
}

/// The deployment name that receives a `reasoning_effort` field.
pub open spec fn spec_mini_reasoning_deployment() -> Seq<char> {
    "o3-mini"@
}

/// The temperature sent when the request leaves it unset: 1.0, in
/// thousandths.
pub open spec fn spec_default_temperature_milli() -> u32 {
    1000
}

pub open spec fn spec_has_system_message(msgs: Seq<MessageV>) -> bool {
    exists|i: int| 0 <= i < msgs.len() && msgs[i].role is System
}

/// The wire shape of one request message: the role is kept verbatim, and
/// an assistant message carries an empty tool-call list.
pub open spec fn spec_wire_message(m: MessageV) -> AzureOpenAiRequestMessageV {
    match m.role {
        Role::System => AzureOpenAiRequestMessageV::System { content: m.content },
        Role::User => AzureOpenAiRequestMessageV::User { content: m.content },
        Role::Assistant => AzureOpenAiRequestMessageV::Assistant {
            content: Some(m.content),
            tool_calls: Seq::empty(),
        },
        Role::Tool => AzureOpenAiRequestMessageV::Tool {
            content: m.content,
            tool_call_id: Seq::empty(),
        },
    }
}

/// The payload's message list: the request's messages in order, with the
/// default system message prepended exactly when no system message is
/// present.
pub open spec fn spec_payload_messages(msgs: Seq<MessageV>) -> Seq<AzureOpenAiRequestMessageV> {
    let mapped = msgs.map_values(|m: MessageV| spec_wire_message(m));
    if spec_has_system_message(msgs) {
        mapped
    } else {
        seq![AzureOpenAiRequestMessageV::System { content: spec_default_system_message() }] + mapped
    }
}

proof fn lemma_payload_messages_index(views: Seq<MessageV>, k: int)
    requires
        0 <= k < views.len(),
    ensures
        spec_payload_messages(views).len() == views.len() + (if spec_has_system_message(views) {
            0int
        } else {
            1int
        }),
        spec_has_system_message(views) ==> spec_payload_messages(views)[k] == spec_wire_message(
            views[k],
        ),
        !spec_has_system_message(views) ==> spec_payload_messages(views)[k + 1]
            == spec_wire_message(views[k]),
        !spec_has_system_message(views) ==> spec_payload_messages(views)[0]
            == (AzureOpenAiRequestMessageV::System { content: spec_default_system_message() }),
{
    let mapped = views.map_values(|m: MessageV| spec_wire_message(m));
    assert(mapped[k] == spec_wire_message(views[k]));
    if !spec_has_system_message(views) {
        let prefix = seq![
            AzureOpenAiRequestMessageV::System { content: spec_default_system_message() },
        ];
        assert((prefix + mapped)[k + 1] == mapped[k]);
        assert((prefix + mapped)[0] == prefix[0]);
    }
}

fn wire_message(m: Message) -> (r: AzureOpenAiRequestMessage)
    ensures
        r@ == spec_wire_message(m@),
{
    match m.role {
        Role::System => AzureOpenAiRequestMessage::System { content: m.content },
        Role::User => AzureOpenAiRequestMessage::User { content: m.content },
        Role::Assistant => {
            let r = AzureOpenAiRequestMessage::Assistant {
                content: Some(m.content),
                tool_calls: Vec::new(),
            };
            proof {
                assert(r@->Assistant_tool_calls =~= Seq::<ToolCallV>::empty());
            }
            r
        },
        Role::Tool => AzureOpenAiRequestMessage::Tool {
            content: m.content,
            tool_call_id: String::new(),
        },
    }
}

fn has_system_message(messages: &Vec<Message>) -> (r: bool)
    ensures
        r == spec_has_system_message(messages@.map_values(|m: Message| m@)),
{
    let ghost views = messages@.map_values(|m: Message| m@);
    let mut i: usize = 0;
    while i < messages.len()
        invariant
            0 <= i <= messages@.len(),
            views == messages@.map_values(|m: Message| m@),
            forall|k: int| 0 <= k < i ==> !(views[k].role is System),
        decreases messages@.len() - i,
    {
        if matches!(messages[i].role, Role::System) {
            proof {
                assert(views[i as int].role is System);
            }
            return true;
        }
        i = i + 1;
    }
    false
}

/// Maps the request messages to their wire shape, prepending the default
/// system message when none is present.
#[verifier::loop_isolation(false)]
pub fn wire_messages(messages: Vec<Message>) -> (r: Vec<AzureOpenAiRequestMessage>)
    ensures
        r@.map_values(|m: AzureOpenAiRequestMessage| m@) == spec_payload_messages(
            messages@.map_values(|m: Message| m@),
        ),
{
    let ghost views = messages@.map_values(|m: Message| m@);
    let ghost target = spec_payload_messages(views);
    let mut out: Vec<AzureOpenAiRequestMessage> = Vec::new();
    let ghost offset: int = if spec_has_system_message(views) {
        0
    } else {
        1
    };
    if !has_system_message(&messages) {
        out.push(AzureOpenAiRequestMessage::System { content: default_system_message() });
        proof {
            assert(out@[0]@ == target[0]);
        }
    }
    let mut rest = messages;
    while rest.len() > 0
        invariant
            offset == (if spec_has_system_message(views) {
                0int
            } else {
                1int
            }),
            rest@.len() <= views.len(),
            rest@.map_values(|m: Message| m@) =~= views.skip(views.len() - rest@.len()),
            out@.len() == offset + views.len() - rest@.len(),
            offset + views.len() == target.len(),
            forall|k: int| 0 <= k < out@.len() ==> #[trigger] out@[k]@ == target[k],
        decreases rest@.len(),
    {
        let ghost i = views.len() - rest@.len();
        let ghost prev = rest@;
        let m = rest.remove(0);
        proof {
            assert(prev.map_values(|m: Message| m@)[0] == m@);
            assert(views.skip(i)[0] == views[i]);
            lemma_payload_messages_index(views, i);
            assert(target[offset + i] == spec_wire_message(views[i]));
        }
        out.push(wire_message(m));
        proof {
            assert(rest@ =~= prev.skip(1));
            assert(rest@.map_values(|m: Message| m@) =~= views.skip(i + 1)) by {
                assert(prev.map_values(|m: Message| m@) =~= views.skip(i));
                assert forall|k: int| 0 <= k < rest@.len() implies #[trigger] rest@[k]@
                    == views[i + 1 + k] by {
                    assert(rest@[k] == prev[k + 1]);
                    assert(prev.map_values(|m: Message| m@)[k + 1] == views.skip(i)[k + 1]);
                }
            }
        }
    }
    proof {
        assert(out@.map_values(|m: AzureOpenAiRequestMessage| m@) =~= target);
    }
    out
}

fn default_system_message() -> (r: String)
    ensures
        r@ == spec_default_system_message(),
{
    String::from_str(
        "Formatting re-enabled - please enclose code blocks with appropriate Markdown tags.",
    )
}

/// Whether the model honors a tool-choice directive: any of them exactly
/// when it supports tools at all.
pub fn supports_tool_choice(model: &ModelDescriptor, choice: ToolChoice) -> (r: bool)
    ensures
        r == crate::model::spec_supports_tools(model.spec_id()),
{
    match choice {
        ToolChoice::Auto => model.supports_tools(),
        ToolChoice::Any => model.supports_tools(),
        ToolChoice::Disabled => model.supports_tools(),
    }
}

/// What it means for `r` to carry the deployment-independent part of the
/// payload for `request` aimed at `model`.
pub open spec fn is_base_translation(
    request: ChatRequest,
    model: ModelDescriptor,
    r: AzureOpenAiRequest,
) -> bool {
    let id = model.spec_id();
    &&& r.model@ == id
    &&& r.messages@.map_values(|m: AzureOpenAiRequestMessage| m@) == spec_payload_messages(
        request.messages@.map_values(|m: Message| m@),
    )
    &&& r.stream == (request.stream && !spec_forbids_streaming(id))
    &&& (spec_is_reasoning(id) ==> r.max_completion_tokens == request.max_output_tokens
        && r.max_tokens is None)
    &&& (!spec_is_reasoning(id) ==> r.max_tokens == request.max_output_tokens
        && r.max_completion_tokens is None)
    &&& r.stop@.map_values(|s: String| s@) == request.stop@.map_values(|s: String| s@)
    &&& r.temperature_milli == (match request.temperature_milli {
        Some(t) => t,
        None => spec_default_temperature_milli(),
    })
    &&& r.tool_choice == request.tool_choice
    &&& r.parallel_tool_calls == (if model.spec_supports_parallel_tool_calls()
        && request.tools@.len() > 0 {
        Some(true)
    } else {
        None::<bool>
    })
    &&& r.tools@.map_values(|t: ToolDefinition| t@) == request.tools@.map_values(
        |t: ToolDefinition| t@,
    )
}

/// What it means for `r` to be the correct Azure payload for `request`
/// aimed at `model` under deployment `deployment`.
pub open spec fn is_translation(
    request: ChatRequest,
    model: ModelDescriptor,
    deployment: Seq<char>,
    r: AzureOpenAiRequest,
) -> bool {
    &&& is_base_translation(request, model, r)
    &&& (deployment == spec_mini_reasoning_deployment() ==> (r.reasoning_effort matches Some(e)
        && e@ == "high"@))
    &&& (deployment != spec_mini_reasoning_deployment() ==> r.reasoning_effort is None)
}

/// Builds the Azure wire request for `model`: messages in wire shape, the
/// output-token budget routed by model family, `parallel_tool_calls`
/// gated on support and a non-empty tool list, and streaming forced off
/// for models that reject it. `reasoning_effort` is left unset here.
pub fn convert_to_azure_request(request: ChatRequest, model: &ModelDescriptor) -> (r:
    AzureOpenAiRequest)
    ensures
        is_base_translation(request, *model, r),
        r.reasoning_effort is None,
{
    let reasoning = model.is_reasoning();
    let id = String::from_str(model.id());
    let messages = wire_messages(request.messages);
    let parallel_tool_calls: Option<bool> = if model.supports_parallel_tool_calls()
        && request.tools.len() > 0 {
        Some(true)
    } else {
        None
    };
    AzureOpenAiRequest {
        model: id,
        messages,
        stream: request.stream && !model.forbids_streaming(),
        max_tokens: if reasoning {
            None
        } else {
            request.max_output_tokens
        },
        max_completion_tokens: if reasoning {
            request.max_output_tokens
        } else {
            None
        },
        stop: request.stop,
        temperature_milli: match request.temperature_milli {
            Some(t) => t,
            None => 1000,
        },
        tool_choice: request.tool_choice,
        parallel_tool_calls,
        tools: request.tools,
        reasoning_effort: None,
    }
}

/// Translates a chat request into the payload for one deployment: the
/// conversion above, plus the constant `reasoning_effort = "high"` field
/// exactly when the deployment name is the recognized mini-reasoning
/// identifier.
pub fn build_request_payload(
    request: ChatRequest,
    model: &ModelDescriptor,
    deployment_name: &str,
) -> (r: AzureOpenAiRequest)
    ensures
        is_translation(request, *model, deployment_name@, r),
{
    let mut payload = convert_to_azure_request(request, model);
    if text::str_eq(deployment_name, "o3-mini") {
        payload.reasoning_effort = Some(String::from_str("high"));
    } else {
        payload.reasoning_effort = None;
    }
    payload
}


/// Token-budget routing law: a payload translated for a reasoning model
/// (id prefix `o1` or `o3`) routes the output-token budget to
/// `max_completion_tokens` and never carries `max_tokens`; for every
/// other model the inverse holds.
pub proof fn lemma_token_budget_routing(
    request: ChatRequest,
    model: ModelDescriptor,
    deployment: Seq<char>,
    r: AzureOpenAiRequest,
)
    requires
        is_translation(request, model, deployment, r),
    ensures
        spec_family(model.spec_id()) is Reasoning ==> r.max_tokens is None
            && r.max_completion_tokens == request.max_output_tokens,
        spec_family(model.spec_id()) is Standard ==> r.max_completion_tokens is None
            && r.max_tokens == request.max_output_tokens,
        spec_family(model.spec_id()) is Reasoning && request.max_output_tokens is Some
            ==> r.max_completion_tokens is Some,
        spec_family(model.spec_id()) is Standard && request.max_output_tokens is Some
            ==> r.max_tokens is Some,
{
}

/// With an empty tool list the payload never carries
/// `parallel_tool_calls`.
pub proof fn lemma_empty_tools_no_parallel(
    request: ChatRequest,
    model: ModelDescriptor,
    deployment: Seq<char>,
    r: AzureOpenAiRequest,
)
    requires
        is_translation(request, model, deployment, r),
        request.tools@.len() == 0,
    ensures
        r.parallel_tool_calls is None,
{
}

/// A request that already carries a system message is translated without
/// prepending another and without reordering: the payload's messages are
/// exactly the request's messages, each mapped to its wire shape in
/// place.
pub proof fn lemma_system_message_preserved(
    request: ChatRequest,
    model: ModelDescriptor,
    deployment: Seq<char>,
    r: AzureOpenAiRequest,
)
    requires
        is_translation(request, model, deployment, r),
        spec_has_system_message(request.messages@.map_values(|m: Message| m@)),
    ensures
        r.messages@.map_values(|m: AzureOpenAiRequestMessage| m@) == request.messages@.map_values(
            |m: Message| m@,
        ).map_values(|m: MessageV| spec_wire_message(m)),
{
}

} // verus!
