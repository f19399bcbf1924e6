//! Wire-level stream events: the incremental chunks that the service
//! sends over its event stream, in the crate's own shape.

use vstd::prelude::*;
use crate::request::Role;

verus! {

/// Token accounting reported by the service.
#[derive(Clone, Copy, PartialEq, Eq, Structural, Debug)]
pub struct Usage {
    pub prompt_tokens: u64,
    pub completion_tokens: u64,
    pub total_tokens: u64,
}

/// A fragment of one tool call. Fragments sharing an `index` belong to
/// the same call and are reassembled by the event mapper.
pub struct ToolCallChunk {
    pub index: u64,
    pub id: Option<String>,
    pub name: Option<String>,
    pub arguments: Option<String>,
}

pub struct ToolCallChunkV {
    pub index: u64,
    pub id: Option<Seq<char>>,
    pub name: Option<Seq<char>>,
    pub arguments: Option<Seq<char>>,
}

impl View for ToolCallChunk {
    type V = ToolCallChunkV;

    open spec fn view(&self) -> ToolCallChunkV {
        ToolCallChunkV {
            index: self.index,
            id: match self.id {
                Some(ref s) => Some(s@),
                None => None,
            },
            name: match self.name {
                Some(ref s) => Some(s@),
                None => None,
            },
            arguments: match self.arguments {
                Some(ref s) => Some(s@),
                None => None,
            },
        }
    }
}

/// The incremental message content of one choice. An absent tool-call
/// list arrives as an empty one.
pub struct MessageDelta {
    pub role: Option<Role>,
    pub content: Option<String>,
    pub tool_calls: Vec<ToolCallChunk>,
}

pub struct MessageDeltaV {
    pub role: Option<Role>,
    pub content: Option<Seq<char>>,
    pub tool_calls: Seq<ToolCallChunkV>,
}

impl View for MessageDelta {
    type V = MessageDeltaV;

    open spec fn view(&self) -> MessageDeltaV {
        MessageDeltaV {
            role: self.role,
            content: match self.content {
                Some(ref s) => Some(s@),
                None => None,
            },
            tool_calls: self.tool_calls@.map_values(|t: ToolCallChunk| t@),
        }
    }
}

/// One choice of a stream event.
pub struct ChoiceDelta {
    pub index: u64,
    pub delta: MessageDelta,
    pub finish_reason: Option<String>,
}

pub struct ChoiceDeltaV {
    pub index: u64,
    pub delta: MessageDeltaV,
    pub finish_reason: Option<Seq<char>>,
}

impl View for ChoiceDelta {
    type V = ChoiceDeltaV;

    open spec fn view(&self) -> ChoiceDeltaV {
        ChoiceDeltaV {
            index: self.index,
            delta: self.delta@,
            finish_reason: match self.finish_reason {
                Some(ref s) => Some(s@),
                None => None,
            },
        }
    }
}

/// One wire-level stream event.
pub struct StreamEvent {
    pub model: String,
    pub choices: Vec<ChoiceDelta>,
    pub usage: Option<Usage>,
}

pub struct StreamEventV {
    pub model: Seq<char>,
    pub choices: Seq<ChoiceDeltaV>,
    pub usage: Option<Usage>,
}

impl View for StreamEvent {
    type V = StreamEventV;

    open spec fn view(&self) -> StreamEventV {
        StreamEventV {
            model: self.model@,
            choices: self.choices@.map_values(|c: ChoiceDelta| c@),
            usage: self.usage,
        }
    }
}

/// The text fragment an event contributes to a plain-text reading of the
/// stream: the content of its last choice, if any.
pub open spec fn spec_text_of_event(ev: StreamEventV) -> Option<Seq<char>> {
    if ev.choices.len() > 0 {
        ev.choices.last().delta.content
    } else {
        None
    }
}

/// The plain-text fragments of a finished event sequence, in order.
pub open spec fn spec_extract_text(events: Seq<StreamEventV>) -> Seq<Seq<char>>
    decreases events.len(),
{
    if events.len() == 0 {
        Seq::empty()
    } else {
        let rest = spec_extract_text(events.drop_first());
        match spec_text_of_event(events.first()) {
            Some(t) => seq![t] + rest,
            None => rest,
        }
    }
}

/// Collects the text fragments of a finished event sequence: per event the
/// content of its last choice, skipping events without choices or without
/// content.
#[verifier::loop_isolation(false)]
pub fn extract_text_from_azure_events(events: &Vec<StreamEvent>) -> (r: Vec<String>)
    ensures
        r@.map_values(|s: String| s@) == spec_extract_text(
            events@.map_values(|e: StreamEvent| e@),
        ),
{
    let ghost evs = events@.map_values(|e: StreamEvent| e@);
    let mut out: Vec<String> = Vec::new();
    let mut i: usize = 0;
    proof {
        assert(evs.skip(0) =~= evs);
        assert(out@.map_values(|s: String| s@) =~= Seq::<Seq<char>>::empty());
    }
    while i < events.len()
        invariant
            0 <= i <= events@.len(),
            out@.map_values(|s: String| s@) + spec_extract_text(evs.skip(i as int))
                =~= spec_extract_text(evs),
        decreases events@.len() - i,
    {
        let ghost pre = out@;
        proof {
            assert(events@[i as int]@ == evs[i as int]);
            assert(evs.skip(i as int).first() == evs[i as int]);
            assert(evs.skip(i as int).drop_first() =~= evs.skip(i as int + 1));
        }
        let ev = &events[i];
        if ev.choices.len() > 0 {
            let choice = &ev.choices[ev.choices.len() - 1];
            proof {
                assert(choice@ == evs[i as int].choices.last());
            }
            if let Some(content) = &choice.delta.content {
                out.push(content.clone());
                proof {
                    assert(out@.map_values(|s: String| s@) =~= pre.map_values(|s: String| s@)
                        + seq![content@]);
                }
            }
        }
        i = i + 1;
    }
    proof {
        assert(evs.skip(i as int) =~= Seq::<StreamEventV>::empty());
        assert(out@.map_values(|s: String| s@) + spec_extract_text(evs.skip(i as int))
            =~= out@.map_values(|s: String| s@));
    }
    out
}

} // verus!
