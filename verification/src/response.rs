//! The non-streaming response: its JSON schema, and its adaptation into a
//! single synthesized stream event so that downstream consumers observe
//! one interface regardless of transport mode.

use vstd::prelude::*;
use crate::error::{CompletionError, CompletionErrorV, classify_failure, spec_classify_failure};
use crate::events::{ChoiceDelta, ChoiceDeltaV, MessageDelta, MessageDeltaV, StreamEvent,
    StreamEventV, ToolCallChunk, ToolCallChunkV, Usage};
use crate::json::{JsonV, json_as_array, json_get, json_is_null, json_is_object, json_model,
    json_of, parse_json};
use crate::request::{AzureOpenAiRequestMessage, AzureOpenAiRequestMessageV, Role, ToolCall,
    ToolCallV};
use crate::schema::{opt_str_field, role_of, spec_field, spec_opt_str_field, spec_role_of,
    spec_str_field, spec_u64_field, str_field, u64_field};
use crate::sse::spec_usage_of;

verus! {

/// One choice of a non-streaming response.
pub struct AzureOpenAiChoice {
    pub index: u64,
    pub message: AzureOpenAiRequestMessage,
    pub finish_reason: Option<String>,
}

pub struct AzureOpenAiChoiceV {
    pub index: u64,
    pub message: AzureOpenAiRequestMessageV,
    pub finish_reason: Option<Seq<char>>,
}

impl View for AzureOpenAiChoice {
    type V = AzureOpenAiChoiceV;

    open spec fn view(&self) -> AzureOpenAiChoiceV {
        AzureOpenAiChoiceV {
            index: self.index,
            message: self.message@,
            finish_reason: match self.finish_reason {
                Some(ref s) => Some(s@),
                None => None,
            },
        }
    }
}

/// A whole non-streaming response.
pub struct AzureOpenAiResponse {
    pub id: String,
    pub object: String,
    pub created: u64,
    pub model: String,
    pub choices: Vec<AzureOpenAiChoice>,
    pub usage: Usage,
}

pub struct AzureOpenAiResponseV {
    pub id: Seq<char>,
    pub object: Seq<char>,
    pub created: u64,
    pub model: Seq<char>,
    pub choices: Seq<AzureOpenAiChoiceV>,
    pub usage: Usage,
}

impl View for AzureOpenAiResponse {
    type V = AzureOpenAiResponseV;

    open spec fn view(&self) -> AzureOpenAiResponseV {
        AzureOpenAiResponseV {
            id: self.id@,
            object: self.object@,
            created: self.created,
            model: self.model@,
            choices: self.choices@.map_values(|c: AzureOpenAiChoice| c@),
            usage: self.usage,
        }
    }
}

/// The model of one completed tool call: a required id and a required
/// function object with name and arguments.
pub open spec fn spec_tool_call_of(j: JsonV) -> Option<ToolCallV> {
    match j {
        JsonV::Obj(m) => match (spec_str_field(m, "id"@), spec_field(m, "function"@)) {
            (Some(id), Some(JsonV::Obj(f))) => match (
                spec_str_field(f, "name"@),
                spec_str_field(f, "arguments"@),
            ) {
                (Some(name), Some(arguments)) => Some(ToolCallV { id, name, arguments }),
                _ => None,
            },
            _ => None,
        },
        _ => None,
    }
}

pub open spec fn spec_tool_calls_of(s: Seq<JsonV>) -> Option<Seq<ToolCallV>> {
    if forall|i: int| 0 <= i < s.len() ==> spec_tool_call_of(#[trigger] s[i]) is Some {
        Some(Seq::new(s.len(), |i: int| spec_tool_call_of(s[i])->0))
    } else {
        None
    }
}

/// The model of a response message, dispatched on its `role` tag. An
/// assistant message may carry `content = null` beside its tool calls;
/// every other role requires content.
pub open spec fn spec_response_message_of(j: JsonV) -> Option<AzureOpenAiRequestMessageV> {
    match j {
        JsonV::Obj(m) => match spec_str_field(m, "role"@) {
            Some(rs) => match spec_role_of(rs) {
                Some(Role::Assistant) => {
                    let tool_calls = match spec_field(m, "tool_calls"@) {
                        None => Some(Seq::<ToolCallV>::empty()),
                        Some(JsonV::Null) => Some(Seq::<ToolCallV>::empty()),
                        Some(JsonV::Arr(a)) => spec_tool_calls_of(a),
                        Some(_) => None,
                    };
                    match (spec_opt_str_field(m, "content"@), tool_calls) {
                        (Some(content), Some(tool_calls)) => Some(
                            AzureOpenAiRequestMessageV::Assistant { content, tool_calls },
                        ),
                        _ => None,
                    }
                },
                Some(Role::User) => match spec_str_field(m, "content"@) {
                    Some(content) => Some(AzureOpenAiRequestMessageV::User { content }),
                    None => None,
                },
                Some(Role::System) => match spec_str_field(m, "content"@) {
                    Some(content) => Some(AzureOpenAiRequestMessageV::System { content }),
                    None => None,
                },
                Some(Role::Tool) => match (
                    spec_str_field(m, "content"@),
                    spec_str_field(m, "tool_call_id"@),
                ) {
                    (Some(content), Some(tool_call_id)) => Some(
                        AzureOpenAiRequestMessageV::Tool { content, tool_call_id },
                    ),
                    _ => None,
                },
                None => None,
            },
            None => None,
        },
        _ => None,
    }
}

/// The model of one response choice.
pub open spec fn spec_response_choice_of(j: JsonV) -> Option<AzureOpenAiChoiceV> {
    match j {
        JsonV::Obj(m) => match (
            spec_u64_field(m, "index"@),
            spec_field(m, "message"@),
            spec_opt_str_field(m, "finish_reason"@),
        ) {
            (Some(index), Some(msg), Some(finish_reason)) => match spec_response_message_of(msg) {
                Some(message) => Some(AzureOpenAiChoiceV { index, message, finish_reason }),
                None => None,
            },
            _ => None,
        },
        _ => None,
    }
}

pub open spec fn spec_response_choices_of(s: Seq<JsonV>) -> Option<Seq<AzureOpenAiChoiceV>> {
    if forall|i: int| 0 <= i < s.len() ==> spec_response_choice_of(#[trigger] s[i]) is Some {
        Some(Seq::new(s.len(), |i: int| spec_response_choice_of(s[i])->0))
    } else {
        None
    }
}

/// The model of a whole non-streaming response.
pub open spec fn spec_response_of(j: JsonV) -> Option<AzureOpenAiResponseV> {
    match j {
        JsonV::Obj(m) => match (
            spec_str_field(m, "id"@),
            spec_str_field(m, "object"@),
            spec_u64_field(m, "created"@),
            spec_str_field(m, "model"@),
            spec_field(m, "choices"@),
            spec_field(m, "usage"@),
        ) {
            (Some(id), Some(object), Some(created), Some(model), Some(JsonV::Arr(cs)), Some(u)) => (
                match (spec_response_choices_of(cs), spec_usage_of(u)) {
                    (Some(choices), Some(usage)) => Some(
                        AzureOpenAiResponseV { id, object, created, model, choices, usage },
                    ),
                    _ => None,
                }
            ),
            _ => None,
        },
        _ => None,
    }
}

/// The parse of a non-streaming body.
pub open spec fn spec_response_of_text(s: Seq<char>) -> Option<AzureOpenAiResponseV> {
    match json_of(s) {
        Some(j) => spec_response_of(j),
        None => None,
    }
}

fn parse_tool_call(v: &serde_json::Value) -> (r: Option<ToolCall>)
    ensures
        match spec_tool_call_of(json_model(*v)) {
            Some(c) => (r matches Some(rc) && rc@ == c),
            None => r is None,
        },
{
    if !json_is_object(v) {
        return None;
    }
    let id = match str_field(v, "id") {
        Some(s) => s,
        None => {
            return None;
        },
    };
    match json_get(v, "function") {
        Some(f) => {
            if !json_is_object(f) {
                return None;
            }
            let name = match str_field(f, "name") {
                Some(s) => s,
                None => {
                    return None;
                },
            };
            let arguments = match str_field(f, "arguments") {
                Some(s) => s,
                None => {
                    return None;
                },
            };
            Some(ToolCall { id, name, arguments })
        },
        None => None,
    }
}

#[verifier::loop_isolation(false)]
fn parse_tool_calls(vs: &Vec<serde_json::Value>) -> (r: Option<Vec<ToolCall>>)
    ensures
        match spec_tool_calls_of(vs@.map_values(|v: serde_json::Value| json_model(v))) {
            Some(cs) => (r matches Some(rcs) && rcs@.map_values(|c: ToolCall| c@) == cs),
            None => r is None,
        },
{
    let ghost js = vs@.map_values(|v: serde_json::Value| json_model(v));
    let mut out: Vec<ToolCall> = Vec::new();
    let mut i: usize = 0;
    while i < vs.len()
        invariant
            0 <= i <= js.len(),
            out@.len() == i,
            forall|k: int| 0 <= k < i ==> spec_tool_call_of(#[trigger] js[k]) is Some,
            forall|k: int| 0 <= k < i ==> #[trigger] out@[k]@ == spec_tool_call_of(js[k])->0,
        decreases js.len() - i,
    {
        proof {
            assert(json_model(vs@[i as int]) == js[i as int]);
        }
        match parse_tool_call(&vs[i]) {
            Some(c) => {
                out.push(c);
            },
            None => {
                proof {
                    assert(spec_tool_call_of(js[i as int]) is None);
                }
                return None;
            },
        }
        i = i + 1;
    }
    proof {
        assert(out@.map_values(|c: ToolCall| c@) =~= spec_tool_calls_of(js)->0);
    }
    Some(out)
}

fn parse_response_message(v: &serde_json::Value) -> (r: Option<AzureOpenAiRequestMessage>)
    ensures
        match spec_response_message_of(json_model(*v)) {
            Some(msg) => (r matches Some(rm) && rm@ == msg),
            None => r is None,
        },
{
    if !json_is_object(v) {
        return None;
    }
    let role = match str_field(v, "role") {
        Some(rs) => match role_of(rs.as_str()) {
            Some(role) => role,
            None => {
                return None;
            },
        },
        None => {
            return None;
        },
    };
    match role {
        Role::Assistant => {
            let content = match opt_str_field(v, "content") {
                Some(o) => o,
                None => {
                    return None;
                },
            };
            let tool_calls = match json_get(v, "tool_calls") {
                None => {
                    let tc: Vec<ToolCall> = Vec::new();
                    proof {
                        assert(tc@.map_values(|c: ToolCall| c@) =~= Seq::<ToolCallV>::empty());
                    }
                    tc
                },
                Some(t) => {
                    if json_is_null(t) {
                        let tc: Vec<ToolCall> = Vec::new();
                        proof {
                            assert(tc@.map_values(|c: ToolCall| c@) =~= Seq::<ToolCallV>::empty());
                        }
                        tc
                    } else {
                        match json_as_array(t) {
                            Some(a) => {
                                proof {
                                    assert(a@.map_values(|av: serde_json::Value| json_model(av))
                                        =~= json_model(*t)->Arr_0);
                                }
                                match parse_tool_calls(a) {
                                    Some(cs) => cs,
                                    None => {
                                        return None;
                                    },
                                }
                            },
                            None => {
                                return None;
                            },
                        }
                    }
                },
            };
            Some(AzureOpenAiRequestMessage::Assistant { content, tool_calls })
        },
        Role::User => match str_field(v, "content") {
            Some(content) => Some(AzureOpenAiRequestMessage::User { content }),
            None => None,
        },
        Role::System => match str_field(v, "content") {
            Some(content) => Some(AzureOpenAiRequestMessage::System { content }),
            None => None,
        },
        Role::Tool => {
            let content = match str_field(v, "content") {
                Some(s) => s,
                None => {
                    return None;
                },
            };
            match str_field(v, "tool_call_id") {
                Some(tool_call_id) => Some(
                    AzureOpenAiRequestMessage::Tool { content, tool_call_id },
                ),
                None => None,
            }
        },
    }
}

fn parse_response_choice(v: &serde_json::Value) -> (r: Option<AzureOpenAiChoice>)
    ensures
        match spec_response_choice_of(json_model(*v)) {
            Some(c) => (r matches Some(rc) && rc@ == c),
            None => r is None,
        },
{
    if !json_is_object(v) {
        return None;
    }
    let index = match u64_field(v, "index") {
        Some(u) => u,
        None => {
            return None;
        },
    };
    let finish_reason = match opt_str_field(v, "finish_reason") {
        Some(o) => o,
        None => {
            return None;
        },
    };
    let message = match json_get(v, "message") {
        Some(msg) => match parse_response_message(msg) {
            Some(m) => m,
            None => {
                return None;
            },
        },
        None => {
            return None;
        },
    };
    Some(AzureOpenAiChoice { index, message, finish_reason })
}

#[verifier::loop_isolation(false)]
fn parse_response_choices(vs: &Vec<serde_json::Value>) -> (r: Option<Vec<AzureOpenAiChoice>>)
    ensures
        match spec_response_choices_of(vs@.map_values(|v: serde_json::Value| json_model(v))) {
            Some(cs) => (r matches Some(rcs) && rcs@.map_values(|c: AzureOpenAiChoice| c@) == cs),
            None => r is None,
        },
{
    let ghost js = vs@.map_values(|v: serde_json::Value| json_model(v));
    let mut out: Vec<AzureOpenAiChoice> = Vec::new();
    let mut i: usize = 0;
    while i < vs.len()
        invariant
            0 <= i <= js.len(),
            out@.len() == i,
            forall|k: int| 0 <= k < i ==> spec_response_choice_of(#[trigger] js[k]) is Some,
            forall|k: int|
                0 <= k < i ==> #[trigger] out@[k]@ == spec_response_choice_of(js[k])->0,
        decreases js.len() - i,
    {
        proof {
            assert(json_model(vs@[i as int]) == js[i as int]);
        }
        match parse_response_choice(&vs[i]) {
            Some(c) => {
                out.push(c);
            },
            None => {
                proof {
                    assert(spec_response_choice_of(js[i as int]) is None);
                }
                return None;
            },
        }
        i = i + 1;
    }
    proof {
        assert(out@.map_values(|c: AzureOpenAiChoice| c@) =~= spec_response_choices_of(js)->0);
    }
    Some(out)
}

/// Parses a whole non-streaming body.
pub fn parse_response(body: &str) -> (r: Option<AzureOpenAiResponse>)
    ensures
        match spec_response_of_text(body@) {
            Some(resp) => (r matches Some(rr) && rr@ == resp),
            None => r is None,
        },
{
    let v = match parse_json(body) {
        Some(v) => v,
        None => {
            return None;
        },
    };
    if !json_is_object(&v) {
        return None;
    }
    let id = match str_field(&v, "id") {
        Some(s) => s,
        None => {
            return None;
        },
    };
    let object = match str_field(&v, "object") {
        Some(s) => s,
        None => {
            return None;
        },
    };
    let created = match u64_field(&v, "created") {
        Some(u) => u,
        None => {
            return None;
        },
    };
    let model = match str_field(&v, "model") {
        Some(s) => s,
        None => {
            return None;
        },
    };
    let usage = match json_get(&v, "usage") {
        Some(u) => match crate::sse::parse_usage(u) {
            Some(us) => us,
            None => {
                return None;
            },
        },
        None => {
            return None;
        },
    };
    let choices = match json_get(&v, "choices") {
        Some(c) => match json_as_array(c) {
            Some(a) => {
                proof {
                    assert(a@.map_values(|av: serde_json::Value| json_model(av)) =~= json_model(
                        *c,
                    )->Arr_0);
                }
                match parse_response_choices(a) {
                    Some(cs) => cs,
                    None => {
                        return None;
                    },
                }
            },
            None => {
                return None;
            },
        },
        None => {
            return None;
        },
    };
    Some(AzureOpenAiResponse { id, object, created, model, choices, usage })
}


/// The choice a non-streaming choice adapts to: the message's role and
/// content (empty content reads as none), one tool-call fragment per
/// completed call with its position as index, and the finish reason kept.
pub open spec fn spec_adapt_choice(c: AzureOpenAiChoiceV) -> ChoiceDeltaV {
    let role = match c.message {
        AzureOpenAiRequestMessageV::Assistant { .. } => Role::Assistant,
        AzureOpenAiRequestMessageV::User { .. } => Role::User,
        AzureOpenAiRequestMessageV::System { .. } => Role::System,
        AzureOpenAiRequestMessageV::Tool { .. } => Role::Tool,
    };
    let text = match c.message {
        AzureOpenAiRequestMessageV::Assistant { content, .. } => content,
        AzureOpenAiRequestMessageV::User { content } => Some(content),
        AzureOpenAiRequestMessageV::System { content } => Some(content),
        AzureOpenAiRequestMessageV::Tool { content, .. } => Some(content),
    };
    let content = match text {
        Some(t) => if t.len() == 0 {
            None
        } else {
            Some(t)
        },
        None => None,
    };
    let tool_calls = match c.message {
        AzureOpenAiRequestMessageV::Assistant { tool_calls, .. } => Seq::new(
            tool_calls.len(),
            |i: int|
                ToolCallChunkV {
                    index: i as u64,
                    id: Some(tool_calls[i].id),
                    name: Some(tool_calls[i].name),
                    arguments: Some(tool_calls[i].arguments),
                },
        ),
        _ => Seq::<ToolCallChunkV>::empty(),
    };
    ChoiceDeltaV {
        index: c.index,
        delta: MessageDeltaV { role: Some(role), content, tool_calls },
        finish_reason: c.finish_reason,
    }
}

/// The single stream event a non-streaming response adapts to: its
/// choices adapted in order, its usage carried along.
pub open spec fn spec_adapt_response(r: AzureOpenAiResponseV) -> StreamEventV {
    StreamEventV {
        model: r.model,
        choices: r.choices.map_values(|c: AzureOpenAiChoiceV| spec_adapt_choice(c)),
        usage: Some(r.usage),
    }
}

#[verifier::loop_isolation(false)]
fn adapt_choice(c: AzureOpenAiChoice) -> (r: ChoiceDelta)
    ensures
        r@ == spec_adapt_choice(c@),
{
    let index = c.index;
    let finish_reason = c.finish_reason;
    let (role, text, calls): (Role, Option<String>, Vec<ToolCall>) = match c.message {
        AzureOpenAiRequestMessage::Assistant { content, tool_calls } => (
            Role::Assistant,
            content,
            tool_calls,
        ),
        AzureOpenAiRequestMessage::User { content } => (Role::User, Some(content), Vec::new()),
        AzureOpenAiRequestMessage::System { content } => (Role::System, Some(content), Vec::new()),
        AzureOpenAiRequestMessage::Tool { content, .. } => (Role::Tool, Some(content), Vec::new()),
    };
    let content = match text {
        Some(t) => {
            if t.unicode_len() == 0 {
                None
            } else {
                Some(t)
            }
        },
        None => None,
    };
    let ghost callsv = calls@.map_values(|t: ToolCall| t@);
    let ghost target = spec_adapt_choice(c@).delta.tool_calls;
    proof {
        assert(target.len() == callsv.len());
    }
    let mut chunks: Vec<ToolCallChunk> = Vec::new();
    let mut rest = calls;
    let total = rest.len();
    let mut i: usize = 0;
    while rest.len() > 0
        invariant
            callsv.len() == total,
            i + rest@.len() == callsv.len(),
            rest@.map_values(|t: ToolCall| t@) =~= callsv.skip(i as int),
            chunks@.len() == i,
            forall|k: int| 0 <= k < i ==> #[trigger] chunks@[k]@ == target[k],
        decreases rest@.len(),
    {
        let ghost prev = rest@;
        let tc = rest.remove(0);
        proof {
            assert(prev.map_values(|t: ToolCall| t@)[0] == tc@);
            assert(callsv.skip(i as int)[0] == callsv[i as int]);
        }
        chunks.push(ToolCallChunk {
            index: i as u64,
            id: Some(tc.id),
            name: Some(tc.name),
            arguments: Some(tc.arguments),
        });
        proof {
            assert(rest@ =~= prev.skip(1));
            assert forall|k: int| 0 <= k < rest@.len() implies #[trigger] rest@[k]@
                == callsv[i + 1 + k] by {
                assert(rest@[k] == prev[k + 1]);
                assert(prev.map_values(|t: ToolCall| t@)[k + 1] == callsv.skip(i as int)[k + 1]);
            }
            assert(rest@.map_values(|t: ToolCall| t@) =~= callsv.skip(i as int + 1));
        }
        i = i + 1;
    }
    let r = ChoiceDelta {
        index,
        delta: MessageDelta { role: Some(role), content, tool_calls: chunks },
        finish_reason,
    };
    proof {
        assert(r@.delta.tool_calls =~= target);
        assert(r@ == spec_adapt_choice(c@));
    }
    r
}

/// Synthesizes the one stream event of a non-streaming response, so that
/// downstream consumers observe the same interface in both transport
/// modes. Null assistant content becomes an absent text fragment, never
/// an error; completed tool calls become fragments indexed by position.
#[verifier::loop_isolation(false)]
pub fn adapt_response_to_stream(response: AzureOpenAiResponse) -> (r: StreamEvent)
    ensures
        r@ == spec_adapt_response(response@),
{
    let model = response.model;
    let usage = response.usage;
    let ghost choicesv = response.choices@.map_values(|c: AzureOpenAiChoice| c@);
    let ghost target = choicesv.map_values(|c: AzureOpenAiChoiceV| spec_adapt_choice(c));
    let mut out: Vec<ChoiceDelta> = Vec::new();
    let mut rest = response.choices;
    let total = rest.len();
    let mut i: usize = 0;
    while rest.len() > 0
        invariant
            choicesv.len() == total,
            i + rest@.len() == choicesv.len(),
            rest@.map_values(|c: AzureOpenAiChoice| c@) =~= choicesv.skip(i as int),
            out@.len() == i,
            forall|k: int| 0 <= k < i ==> #[trigger] out@[k]@ == target[k],
        decreases rest@.len(),
    {
        let ghost prev = rest@;
        let c = rest.remove(0);
        proof {
            assert(prev.map_values(|c: AzureOpenAiChoice| c@)[0] == c@);
            assert(choicesv.skip(i as int)[0] == choicesv[i as int]);
            assert(target[i as int] == spec_adapt_choice(choicesv[i as int]));
        }
        out.push(adapt_choice(c));
        proof {
            assert(rest@ =~= prev.skip(1));
            assert forall|k: int| 0 <= k < rest@.len() implies #[trigger] rest@[k]@
                == choicesv[i + 1 + k] by {
                assert(rest@[k] == prev[k + 1]);
                assert(prev.map_values(|c: AzureOpenAiChoice| c@)[k + 1] == choicesv.skip(
                    i as int,
                )[k + 1]);
            }
            assert(rest@.map_values(|c: AzureOpenAiChoice| c@) =~= choicesv.skip(i as int + 1));
        }
        i = i + 1;
    }
    let r = StreamEvent { model, choices: out, usage: Some(usage) };
    proof {
        assert(r@.choices =~= target);
        assert(r@ == spec_adapt_response(response@));
    }
    r
}

/// Handles a whole non-streaming exchange, given the status and body: a
/// failure status is classified; a success body that cannot be read is a
/// fatal malformed response; a success body with zero choices is a hard
/// error; otherwise the synthesized stream event is returned.
pub fn complete_from_body(status: u16, body: &str) -> (r: Result<StreamEvent, CompletionError>)
    ensures
        !(200 <= status < 300) ==> (r matches Err(e) && e@ == spec_classify_failure(
            status,
            body@,
        )),
        (200 <= status < 300) ==> match spec_response_of_text(body@) {
            Some(resp) => {
                if resp.choices.len() == 0 {
                    (r matches Err(e) && e@ == CompletionErrorV::EmptyChoices)
                } else {
                    (r matches Ok(ev) && ev@ == spec_adapt_response(resp))
                }
            },
            None => (r matches Err(e) && e@ == CompletionErrorV::MalformedResponse(body@)),
        },
{
    if !(200 <= status && status < 300) {
        return Err(classify_failure(status, body));
    }
    match parse_response(body) {
        None => Err(CompletionError::MalformedResponse(String::from_str(body))),
        Some(resp) => {
            if resp.choices.len() == 0 {
                proof {
                    assert(resp@.choices.len() == 0);
                }
                Err(CompletionError::EmptyChoices)
            } else {
                Ok(adapt_response_to_stream(resp))
            }
        },
    }
}

/// Null-content law: an assistant message whose content is null adapts
/// to a choice that contributes no text fragment, and its completed tool
/// calls become exactly one fragment each, indexed by position — null
/// content beside tool calls is not an error.
pub proof fn lemma_null_content_tool_calls(c: AzureOpenAiChoiceV)
    requires
        c.message matches AzureOpenAiRequestMessageV::Assistant { content: None, .. },
    ensures
        spec_adapt_choice(c).delta.content is None,
        spec_adapt_choice(c).delta.tool_calls.len() == c.message->Assistant_tool_calls.len(),
        forall|i: int|
            0 <= i < c.message->Assistant_tool_calls.len()
                ==> (#[trigger] spec_adapt_choice(c).delta.tool_calls[i]) == (ToolCallChunkV {
                index: i as u64,
                id: Some(c.message->Assistant_tool_calls[i].id),
                name: Some(c.message->Assistant_tool_calls[i].name),
                arguments: Some(c.message->Assistant_tool_calls[i].arguments),
            }),
{
}

} // verus!
