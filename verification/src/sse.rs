//! The stream decoder: the server-sent-event line protocol and the JSON
//! schema of one stream chunk.
//!
//! A body is read line by line. Blank lines and lines without the
//! `data: ` prefix are dropped; the payload `[DONE]` ends the stream; any
//! other payload is parsed as JSON. A chunk that fails to parse yields an
//! error item and the stream continues — one malformed chunk does not
//! abort the whole stream.

use vstd::prelude::*;
use crate::events::{ChoiceDelta, ChoiceDeltaV, MessageDelta, MessageDeltaV, StreamEvent,
    StreamEventV, ToolCallChunk, ToolCallChunkV, Usage};
use crate::json::{JsonV, json_as_array, json_as_str, json_get, json_is_null, json_is_object,
    json_model, json_of, parse_json};
use crate::schema::{spec_field, spec_opt_str_field, spec_role_of, spec_str_field, spec_u64_field,
    opt_str_field, role_of, str_field, u64_field};
use crate::text;

verus! {

/// The model of one tool-call fragment, read from its JSON shape.
pub open spec fn spec_tool_call_chunk_of(j: JsonV) -> Option<ToolCallChunkV> {
    match j {
        JsonV::Obj(m) => match (spec_u64_field(m, "index"@), spec_opt_str_field(m, "id"@)) {
            (Some(index), Some(id)) => match spec_field(m, "function"@) {
                None => Some(ToolCallChunkV { index, id, name: None, arguments: None }),
                Some(JsonV::Null) => Some(ToolCallChunkV { index, id, name: None, arguments: None }),
                Some(JsonV::Obj(f)) => match (
                    spec_opt_str_field(f, "name"@),
                    spec_opt_str_field(f, "arguments"@),
                ) {
                    (Some(name), Some(arguments)) => Some(
                        ToolCallChunkV { index, id, name, arguments },
                    ),
                    _ => None,
                },
                Some(_) => None,
            },
            _ => None,
        },
        _ => None,
    }
}

/// The model of a tool-call fragment list.
pub open spec fn spec_tool_call_chunks_of(s: Seq<JsonV>) -> Option<Seq<ToolCallChunkV>> {
    if forall|i: int| 0 <= i < s.len() ==> spec_tool_call_chunk_of(#[trigger] s[i]) is Some {
        Some(Seq::new(s.len(), |i: int| spec_tool_call_chunk_of(s[i])->0))
    } else {
        None
    }
}

/// The model of one choice's delta: every field is optional; an absent
/// tool-call list reads as an empty one.
pub open spec fn spec_delta_of(j: JsonV) -> Option<MessageDeltaV> {
    match j {
        JsonV::Obj(m) => {
            let role = match spec_opt_str_field(m, "role"@) {
                Some(None) => Some(None::<crate::request::Role>),
                Some(Some(rs)) => match spec_role_of(rs) {
                    Some(r) => Some(Some(r)),
                    None => None,
                },
                None => None,
            };
            let tool_calls = match spec_field(m, "tool_calls"@) {
                None => Some(Seq::<ToolCallChunkV>::empty()),
                Some(JsonV::Null) => Some(Seq::<ToolCallChunkV>::empty()),
                Some(JsonV::Arr(a)) => spec_tool_call_chunks_of(a),
                Some(_) => None,
            };
            match (role, spec_opt_str_field(m, "content"@), tool_calls) {
                (Some(role), Some(content), Some(tool_calls)) => Some(
                    MessageDeltaV { role, content, tool_calls },
                ),
                _ => None,
            }
        },
        _ => None,
    }
}

/// The model of one choice: a required index, a required delta object,
/// an optional finish reason.
pub open spec fn spec_choice_of(j: JsonV) -> Option<ChoiceDeltaV> {
    match j {
        JsonV::Obj(m) => match (
            spec_u64_field(m, "index"@),
            spec_field(m, "delta"@),
            spec_opt_str_field(m, "finish_reason"@),
        ) {
            (Some(index), Some(d), Some(finish_reason)) => match spec_delta_of(d) {
                Some(delta) => Some(ChoiceDeltaV { index, delta, finish_reason }),
                None => None,
            },
            _ => None,
        },
        _ => None,
    }
}

/// The model of the choice list.
pub open spec fn spec_choices_of(s: Seq<JsonV>) -> Option<Seq<ChoiceDeltaV>> {
    if forall|i: int| 0 <= i < s.len() ==> spec_choice_of(#[trigger] s[i]) is Some {
        Some(Seq::new(s.len(), |i: int| spec_choice_of(s[i])->0))
    } else {
        None
    }
}

/// The model of the usage record: three required counters.
pub open spec fn spec_usage_of(j: JsonV) -> Option<Usage> {
    match j {
        JsonV::Obj(m) => match (
            spec_u64_field(m, "prompt_tokens"@),
            spec_u64_field(m, "completion_tokens"@),
            spec_u64_field(m, "total_tokens"@),
        ) {
            (Some(prompt_tokens), Some(completion_tokens), Some(total_tokens)) => Some(
                Usage { prompt_tokens, completion_tokens, total_tokens },
            ),
            _ => None,
        },
        _ => None,
    }
}

/// The model of one stream event: a required model id, a required choice
/// array, an optional usage record.
pub open spec fn spec_event_of(j: JsonV) -> Option<StreamEventV> {
    match j {
        JsonV::Obj(m) => {
            let usage = match spec_field(m, "usage"@) {
                None => Some(None::<Usage>),
                Some(JsonV::Null) => Some(None::<Usage>),
                Some(u) => match spec_usage_of(u) {
                    Some(us) => Some(Some(us)),
                    None => None,
                },
            };
            match (spec_str_field(m, "model"@), spec_field(m, "choices"@), usage) {
                (Some(model), Some(JsonV::Arr(cs)), Some(usage)) => match spec_choices_of(cs) {
                    Some(choices) => Some(StreamEventV { model, choices, usage }),
                    None => None,
                },
                _ => None,
            }
        },
        _ => None,
    }
}

fn parse_tool_call_chunk(v: &serde_json::Value) -> (r: Option<ToolCallChunk>)
    ensures
        match spec_tool_call_chunk_of(json_model(*v)) {
            Some(c) => (r matches Some(rc) && rc@ == c),
            None => r is None,
        },
{
    if !json_is_object(v) {
        return None;
    }
    let index = match u64_field(v, "index") {
        Some(u) => u,
        None => {
            return None;
        },
    };
    let id = match opt_str_field(v, "id") {
        Some(o) => o,
        None => {
            return None;
        },
    };
    match json_get(v, "function") {
        None => Some(ToolCallChunk { index, id, name: None, arguments: None }),
        Some(f) => {
            if json_is_null(f) {
                Some(ToolCallChunk { index, id, name: None, arguments: None })
            } else if json_is_object(f) {
                let name = match opt_str_field(f, "name") {
                    Some(o) => o,
                    None => {
                        return None;
                    },
                };
                let arguments = match opt_str_field(f, "arguments") {
                    Some(o) => o,
                    None => {
                        return None;
                    },
                };
                Some(ToolCallChunk { index, id, name, arguments })
            } else {
                None
            }
        },
    }
}

#[verifier::loop_isolation(false)]
fn parse_tool_call_chunks(vs: &Vec<serde_json::Value>) -> (r: Option<Vec<ToolCallChunk>>)
    ensures
        match spec_tool_call_chunks_of(vs@.map_values(|v: serde_json::Value| json_model(v))) {
            Some(cs) => (r matches Some(rcs) && rcs@.map_values(|c: ToolCallChunk| c@) == cs),
            None => r is None,
        },
{
    let ghost js = vs@.map_values(|v: serde_json::Value| json_model(v));
    let mut out: Vec<ToolCallChunk> = Vec::new();
    let mut i: usize = 0;
    while i < vs.len()
        invariant
            0 <= i <= js.len(),
            out@.len() == i,
            forall|k: int| 0 <= k < i ==> spec_tool_call_chunk_of(#[trigger] js[k]) is Some,
            forall|k: int|
                0 <= k < i ==> #[trigger] out@[k]@ == spec_tool_call_chunk_of(js[k])->0,
        decreases js.len() - i,
    {
        proof {
            assert(json_model(vs@[i as int]) == js[i as int]);
        }
        match parse_tool_call_chunk(&vs[i]) {
            Some(c) => {
                out.push(c);
            },
            None => {
                proof {
                    assert(spec_tool_call_chunk_of(js[i as int]) is None);
                }
                return None;
            },
        }
        i = i + 1;
    }
    proof {
        let cs = spec_tool_call_chunks_of(js)->0;
        assert(out@.map_values(|c: ToolCallChunk| c@) =~= cs);
    }
    Some(out)
}

fn parse_delta(v: &serde_json::Value) -> (r: Option<MessageDelta>)
    ensures
        match spec_delta_of(json_model(*v)) {
            Some(d) => (r matches Some(rd) && rd@ == d),
            None => r is None,
        },
{
    if !json_is_object(v) {
        return None;
    }
    let role = match opt_str_field(v, "role") {
        Some(None) => None,
        Some(Some(rs)) => match role_of(rs.as_str()) {
            Some(r) => Some(r),
            None => {
                return None;
            },
        },
        None => {
            return None;
        },
    };
    let content = match opt_str_field(v, "content") {
        Some(o) => o,
        None => {
            return None;
        },
    };
    let tool_calls = match json_get(v, "tool_calls") {
        None => {
            let tc: Vec<ToolCallChunk> = Vec::new();
            proof {
                assert(tc@.map_values(|c: ToolCallChunk| c@) =~= Seq::<ToolCallChunkV>::empty());
            }
            tc
        },
        Some(t) => {
            if json_is_null(t) {
                let tc: Vec<ToolCallChunk> = Vec::new();
                proof {
                    assert(tc@.map_values(|c: ToolCallChunk| c@) =~= Seq::<
                        ToolCallChunkV,
                    >::empty());
                }
                tc
            } else {
                match json_as_array(t) {
                    Some(a) => {
                        proof {
                            assert(a@.map_values(|av: serde_json::Value| json_model(av))
                                =~= json_model(*t)->Arr_0);
                        }
                        match parse_tool_call_chunks(a) {
                            Some(cs) => cs,
                            None => {
                                return None;
                            },
                        }
                    },
                    None => {
                        return None;
                    },
                }
            }
        },
    };
    let r = MessageDelta { role, content, tool_calls };
    Some(r)
}

fn parse_choice(v: &serde_json::Value) -> (r: Option<ChoiceDelta>)
    ensures
        match spec_choice_of(json_model(*v)) {
            Some(c) => (r matches Some(rc) && rc@ == c),
            None => r is None,
        },
{
    if !json_is_object(v) {
        return None;
    }
    let index = match u64_field(v, "index") {
        Some(u) => u,
        None => {
            return None;
        },
    };
    let finish_reason = match opt_str_field(v, "finish_reason") {
        Some(o) => o,
        None => {
            return None;
        },
    };
    let delta = match json_get(v, "delta") {
        Some(d) => match parse_delta(d) {
            Some(rd) => rd,
            None => {
                return None;
            },
        },
        None => {
            return None;
        },
    };
    Some(ChoiceDelta { index, delta, finish_reason })
}

#[verifier::loop_isolation(false)]
fn parse_choices(vs: &Vec<serde_json::Value>) -> (r: Option<Vec<ChoiceDelta>>)
    ensures
        match spec_choices_of(vs@.map_values(|v: serde_json::Value| json_model(v))) {
            Some(cs) => (r matches Some(rcs) && rcs@.map_values(|c: ChoiceDelta| c@) == cs),
            None => r is None,
        },
{
    let ghost js = vs@.map_values(|v: serde_json::Value| json_model(v));
    let mut out: Vec<ChoiceDelta> = Vec::new();
    let mut i: usize = 0;
    while i < vs.len()
        invariant
            0 <= i <= js.len(),
            out@.len() == i,
            forall|k: int| 0 <= k < i ==> spec_choice_of(#[trigger] js[k]) is Some,
            forall|k: int| 0 <= k < i ==> #[trigger] out@[k]@ == spec_choice_of(js[k])->0,
        decreases js.len() - i,
    {
        proof {
            assert(json_model(vs@[i as int]) == js[i as int]);
        }
        match parse_choice(&vs[i]) {
            Some(c) => {
                out.push(c);
            },
            None => {
                proof {
                    assert(spec_choice_of(js[i as int]) is None);
                }
                return None;
            },
        }
        i = i + 1;
    }
    proof {
        let cs = spec_choices_of(js)->0;
        assert(out@.map_values(|c: ChoiceDelta| c@) =~= cs);
    }
    Some(out)
}

pub(crate) fn parse_usage(v: &serde_json::Value) -> (r: Option<Usage>)
    ensures
        r == spec_usage_of(json_model(*v)),
{
    if !json_is_object(v) {
        return None;
    }
    let prompt_tokens = match u64_field(v, "prompt_tokens") {
        Some(u) => u,
        None => {
            return None;
        },
    };
    let completion_tokens = match u64_field(v, "completion_tokens") {
        Some(u) => u,
        None => {
            return None;
        },
    };
    let total_tokens = match u64_field(v, "total_tokens") {
        Some(u) => u,
        None => {
            return None;
        },
    };
    Some(Usage { prompt_tokens, completion_tokens, total_tokens })
}

/// Reads one stream event out of a parsed JSON document.
pub fn parse_stream_event_value(v: &serde_json::Value) -> (r: Option<StreamEvent>)
    ensures
        match spec_event_of(json_model(*v)) {
            Some(ev) => (r matches Some(re) && re@ == ev),
            None => r is None,
        },
{
    if !json_is_object(v) {
        return None;
    }
    let model = match str_field(v, "model") {
        Some(s) => s,
        None => {
            return None;
        },
    };
    let usage = match json_get(v, "usage") {
        None => None,
        Some(u) => {
            if json_is_null(u) {
                None
            } else {
                match parse_usage(u) {
                    Some(us) => Some(us),
                    None => {
                        return None;
                    },
                }
            }
        },
    };
    let choices = match json_get(v, "choices") {
        Some(c) => match json_as_array(c) {
            Some(a) => {
                proof {
                    assert(a@.map_values(|av: serde_json::Value| json_model(av)) =~= json_model(
                        *c,
                    )->Arr_0);
                }
                match parse_choices(a) {
                    Some(cs) => cs,
                    None => {
                        return None;
                    },
                }
            },
            None => {
                return None;
            },
        },
        None => {
            return None;
        },
    };
    Some(StreamEvent { model, choices, usage })
}

/// What one `data:` payload decodes to: a stream event, an error envelope
/// that the service sent in-stream, or a malformed chunk.
pub enum ChunkOutcome {
    Event(StreamEvent),
    ServerError(String),
    Malformed,
}

pub enum ChunkOutcomeV {
    Event(StreamEventV),
    ServerError(Seq<char>),
    Malformed,
}

impl View for ChunkOutcome {
    type V = ChunkOutcomeV;

    open spec fn view(&self) -> ChunkOutcomeV {
        match self {
            ChunkOutcome::Event(ev) => ChunkOutcomeV::Event(ev@),
            ChunkOutcome::ServerError(s) => ChunkOutcomeV::ServerError(s@),
            ChunkOutcome::Malformed => ChunkOutcomeV::Malformed,
        }
    }
}

/// The message text of an in-stream error envelope.
pub open spec fn spec_error_text(j: JsonV) -> Seq<char> {
    match j {
        JsonV::Str(s) => s,
        JsonV::Obj(m) => match spec_field(m, "message"@) {
            Some(JsonV::Str(s)) => s,
            _ => Seq::empty(),
        },
        _ => Seq::empty(),
    }
}

/// The outcome of one payload: an event if it has the event shape, a
/// server error if it carries an `error` field instead, and a malformed
/// chunk otherwise.
pub open spec fn spec_chunk_outcome(j: Option<JsonV>) -> ChunkOutcomeV {
    match j {
        None => ChunkOutcomeV::Malformed,
        Some(v) => match spec_event_of(v) {
            Some(ev) => ChunkOutcomeV::Event(ev),
            None => match v {
                JsonV::Obj(m) => {
                    if m.contains_key("error"@) {
                        ChunkOutcomeV::ServerError(spec_error_text(m["error"@]))
                    } else {
                        ChunkOutcomeV::Malformed
                    }
                },
                _ => ChunkOutcomeV::Malformed,
            },
        },
    }
}

fn error_text(v: &serde_json::Value) -> (r: String)
    ensures
        r@ == spec_error_text(json_model(*v)),
{
    match json_as_str(v) {
        Some(s) => String::from_str(s),
        None => match json_get(v, "message") {
            Some(msg) => match json_as_str(msg) {
                Some(s) => String::from_str(s),
                None => String::new(),
            },
            None => String::new(),
        },
    }
}

/// Decodes one `data:` payload.
pub fn parse_stream_chunk(payload: &str) -> (r: ChunkOutcome)
    ensures
        r@ == spec_chunk_outcome(json_of(payload@)),
{
    match parse_json(payload) {
        None => ChunkOutcome::Malformed,
        Some(v) => match parse_stream_event_value(&v) {
            Some(ev) => ChunkOutcome::Event(ev),
            None => match json_get(&v, "error") {
                Some(e) => ChunkOutcome::ServerError(error_text(e)),
                None => ChunkOutcome::Malformed,
            },
        },
    }
}

/// What one line of the body contributes.
pub enum LineAction {
    Ignored,
    Stop,
    Chunk(String),
}

pub enum LineActionV {
    Ignored,
    Stop,
    Chunk(Seq<char>),
}

impl View for LineAction {
    type V = LineActionV;

    open spec fn view(&self) -> LineActionV {
        match self {
            LineAction::Ignored => LineActionV::Ignored,
            LineAction::Stop => LineActionV::Stop,
            LineAction::Chunk(p) => LineActionV::Chunk(p@),
        }
    }
}

/// The line protocol: a trimmed blank line or one without the `data: `
/// prefix is dropped; the payload `[DONE]` ends the stream; any other
/// payload is a chunk to decode.
pub open spec fn spec_classify_line(line: Seq<char>) -> LineActionV {
    let t = text::spec_trim(line);
    if t.len() == 0 {
        LineActionV::Ignored
    } else if !"data: "@.is_prefix_of(t) {
        LineActionV::Ignored
    } else {
        let p = t.skip("data: "@.len() as int);
        if p == "[DONE]"@ {
            LineActionV::Stop
        } else {
            LineActionV::Chunk(p)
        }
    }
}

/// Classifies one line of the body.
pub fn classify_line(line: &str) -> (r: LineAction)
    ensures
        r@ == spec_classify_line(line@),
{
    let t = text::trim(line);
    if t.unicode_len() == 0 {
        return LineAction::Ignored;
    }
    match text::strip_prefix_str(t, "data: ") {
        None => LineAction::Ignored,
        Some(p) => {
            if text::str_eq(p, "[DONE]") {
                LineAction::Stop
            } else {
                LineAction::Chunk(String::from_str(p))
            }
        },
    }
}

/// One item of the decoded stream: an event, an error the service sent
/// in-stream, or a malformed chunk carrying its payload text. A malformed
/// chunk does not end the stream.
pub enum DecodedItem {
    Event(StreamEvent),
    ServerError(String),
    Malformed(String),
}

pub enum DecodedItemV {
    Event(StreamEventV),
    ServerError(Seq<char>),
    Malformed(Seq<char>),
}

impl View for DecodedItem {
    type V = DecodedItemV;

    open spec fn view(&self) -> DecodedItemV {
        match self {
            DecodedItem::Event(ev) => DecodedItemV::Event(ev@),
            DecodedItem::ServerError(s) => DecodedItemV::ServerError(s@),
            DecodedItem::Malformed(s) => DecodedItemV::Malformed(s@),
        }
    }
}

/// The item a chunk payload decodes to.
pub open spec fn spec_item_of_chunk(p: Seq<char>) -> DecodedItemV {
    match spec_chunk_outcome(json_of(p)) {
        ChunkOutcomeV::Event(ev) => DecodedItemV::Event(ev),
        ChunkOutcomeV::ServerError(s) => DecodedItemV::ServerError(s),
        ChunkOutcomeV::Malformed => DecodedItemV::Malformed(p),
    }
}

/// The single-pass decoder state: once the terminator has been seen,
/// every further line is dropped.
pub struct StreamDecoder {
    finished: bool,
}

impl StreamDecoder {
    pub closed spec fn is_done(&self) -> bool {
        self.finished
    }

    pub fn new() -> (r: StreamDecoder)
        ensures
            !r.is_done(),
    {
        StreamDecoder { finished: false }
    }

    pub fn finished(&self) -> (r: bool)
        ensures
            r == self.is_done(),
    {
        self.finished
    }

    /// Feeds one line: an ignored line yields nothing; the terminator
    /// ends the stream; a chunk yields its decoded item, and the stream
    /// goes on whether or not the chunk was well formed.
    pub fn feed_line(&mut self, line: &str) -> (r: Option<DecodedItem>)
        ensures
            old(self).is_done() ==> final(self).is_done() && r is None,
            !old(self).is_done() ==> match spec_classify_line(line@) {
                LineActionV::Ignored => !final(self).is_done() && r is None,
                LineActionV::Stop => final(self).is_done() && r is None,
                LineActionV::Chunk(p) => !final(self).is_done() && (r matches Some(item)
                    && item@ == spec_item_of_chunk(p)),
            },
    {
        if self.finished {
            return None;
        }
        match classify_line(line) {
            LineAction::Ignored => None,
            LineAction::Stop => {
                self.finished = true;
                None
            },
            LineAction::Chunk(p) => match parse_stream_chunk(p.as_str()) {
                ChunkOutcome::Event(ev) => Some(DecodedItem::Event(ev)),
                ChunkOutcome::ServerError(s) => Some(DecodedItem::ServerError(s)),
                ChunkOutcome::Malformed => Some(DecodedItem::Malformed(p)),
            },
        }
    }
}

/// The decode of a body from line `i` on: the items of its chunks up to
/// the terminator, and whether the terminator was seen.
pub open spec fn spec_decode_from(lines: Seq<Seq<char>>, i: int) -> (Seq<DecodedItemV>, bool)
    decreases lines.len() - i,
{
    if i < 0 || i >= lines.len() {
        (Seq::empty(), false)
    } else {
        match spec_classify_line(lines[i]) {
            LineActionV::Ignored => spec_decode_from(lines, i + 1),
            LineActionV::Stop => (Seq::empty(), true),
            LineActionV::Chunk(p) => {
                let rest = spec_decode_from(lines, i + 1);
                (seq![spec_item_of_chunk(p)] + rest.0, rest.1)
            },
        }
    }
}

/// The decode of a whole body.
pub open spec fn spec_decode(lines: Seq<Seq<char>>) -> (Seq<DecodedItemV>, bool) {
    spec_decode_from(lines, 0)
}

/// Decodes a body given as its lines: the decoded items in order, and
/// whether the terminator was seen.
#[verifier::loop_isolation(false)]
pub fn decode_body_lines(lines: &Vec<String>) -> (r: (Vec<DecodedItem>, bool))
    ensures
        r.0@.map_values(|it: DecodedItem| it@) == spec_decode(
            lines@.map_values(|s: String| s@),
        ).0,
        r.1 == spec_decode(lines@.map_values(|s: String| s@)).1,
{
    let ghost ls = lines@.map_values(|s: String| s@);
    let mut out: Vec<DecodedItem> = Vec::new();
    let mut decoder = StreamDecoder::new();
    let mut i: usize = 0;
    while i < lines.len() && !decoder.finished()
        invariant
            0 <= i <= ls.len(),
            !decoder.is_done() ==> spec_decode(ls).0 =~= out@.map_values(|it: DecodedItem| it@)
                + spec_decode_from(ls, i as int).0,
            !decoder.is_done() ==> spec_decode(ls).1 == spec_decode_from(ls, i as int).1,
            decoder.is_done() ==> spec_decode(ls).0 =~= out@.map_values(
                |it: DecodedItem| it@,
            ) && spec_decode(ls).1,
        decreases ls.len() - i,
    {
        proof {
            assert(lines@[i as int]@ == ls[i as int]);
        }
        let ghost pre = out@;
        match decoder.feed_line(lines[i].as_str()) {
            Some(item) => {
                out.push(item);
                proof {
                    assert(out@.map_values(|it: DecodedItem| it@) =~= pre.map_values(
                        |it: DecodedItem| it@,
                    ) + seq![out@.last()@]);
                }
            },
            None => {},
        }
        i = i + 1;
    }
    proof {
        if !decoder.is_done() {
            assert(spec_decode_from(ls, i as int).0 =~= Seq::<DecodedItemV>::empty());
        }
    }
    let done = decoder.finished();
    (out, done)
}

/// Resilience law: a chunk whose payload is not valid JSON yields one
/// malformed item and decoding continues with the next line; the
/// malformed chunk neither ends the stream nor hides later items.
pub proof fn lemma_malformed_chunk_skipped(lines: Seq<Seq<char>>, i: int, p: Seq<char>)
    requires
        0 <= i < lines.len(),
        spec_classify_line(lines[i]) == LineActionV::Chunk(p),
        json_of(p) is None,
    ensures
        spec_decode_from(lines, i).0 == seq![DecodedItemV::Malformed(p)] + spec_decode_from(
            lines,
            i + 1,
        ).0,
        spec_decode_from(lines, i).1 == spec_decode_from(lines, i + 1).1,
{
}

/// Termination law: one well-formed chunk line, a blank line, then the
/// terminator decode to exactly that chunk's event and a finished
/// stream.
pub proof fn lemma_single_chunk_then_done(lines: Seq<Seq<char>>, p: Seq<char>, ev: StreamEventV)
    requires
        lines.len() == 3,
        spec_classify_line(lines[0]) == LineActionV::Chunk(p),
        spec_classify_line(lines[1]) == LineActionV::Ignored,
        spec_classify_line(lines[2]) == LineActionV::Stop,
        json_of(p) matches Some(j) && spec_event_of(j) == Some(ev),
    ensures
        spec_decode(lines).0 == seq![DecodedItemV::Event(ev)],
        spec_decode(lines).1,
{
    assert(spec_decode_from(lines, 2).1);
    assert(spec_decode_from(lines, 1) == spec_decode_from(lines, 2));
    assert(spec_item_of_chunk(p) == DecodedItemV::Event(ev));
    assert(spec_decode(lines).0 =~= seq![DecodedItemV::Event(ev)]);
}

/// Termination law: the terminator line ends the decode at once — no
/// item of a later line can appear after it.
pub proof fn lemma_terminator_ends_stream(lines: Seq<Seq<char>>, i: int)
    requires
        0 <= i < lines.len(),
        spec_classify_line(lines[i]) == LineActionV::Stop,
    ensures
        spec_decode_from(lines, i).0 == Seq::<DecodedItemV>::empty(),
        spec_decode_from(lines, i).1,
{
}

} // verus!
