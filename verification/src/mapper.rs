//! The event mapper: converts wire-level stream events into the ordered
//! caller-facing completion events, while accumulating fragmented
//! tool-call data by index.
//!
//! Fragments are forwarded as they arrive — callers concatenate them —
//! and the mapper also keeps the running accumulation per index: the id
//! is set once by the first fragment that carries one, name and argument
//! fragments are appended. The accumulator lives for one streaming
//! session.

use vstd::prelude::*;
use crate::events::{ChoiceDeltaV, StreamEvent, StreamEventV, ToolCallChunk, ToolCallChunkV};

verus! {

/// A caller-facing incremental completion event.
pub enum CompletionEvent {
    /// A text fragment, forwarded verbatim.
    Text(String),
    /// One tool-call fragment; fragments sharing an index belong to one
    /// call.
    ToolCallDelta {
        index: u64,
        id: Option<String>,
        name_fragment: Option<String>,
        arguments_fragment: Option<String>,
    },
    /// A choice reported its finish reason.
    Done,
}

pub enum CompletionEventV {
    Text(Seq<char>),
    ToolCallDelta {
        index: u64,
        id: Option<Seq<char>>,
        name_fragment: Option<Seq<char>>,
        arguments_fragment: Option<Seq<char>>,
    },
    Done,
}

impl View for CompletionEvent {
    type V = CompletionEventV;

    open spec fn view(&self) -> CompletionEventV {
        match self {
            CompletionEvent::Text(s) => CompletionEventV::Text(s@),
            CompletionEvent::ToolCallDelta { index, id, name_fragment, arguments_fragment } => (
                CompletionEventV::ToolCallDelta {
                    index: *index,
                    id: match id {
                        Some(s) => Some(s@),
                        None => None,
                    },
                    name_fragment: match name_fragment {
                        Some(s) => Some(s@),
                        None => None,
                    },
                    arguments_fragment: match arguments_fragment {
                        Some(s) => Some(s@),
                        None => None,
                    },
                }
            ),
            CompletionEvent::Done => CompletionEventV::Done,
        }
    }
}

/// The accumulated state of one in-progress tool call.
pub struct PendingToolCall {
    pub id: Option<String>,
    pub name: String,
    pub arguments: String,
}

pub struct PendingToolCallV {
    pub id: Option<Seq<char>>,
    pub name: Seq<char>,
    pub arguments: Seq<char>,
}

impl View for PendingToolCall {
    type V = PendingToolCallV;

    open spec fn view(&self) -> PendingToolCallV {
        PendingToolCallV {
            id: match self.id {
                Some(ref s) => Some(s@),
                None => None,
            },
            name: self.name@,
            arguments: self.arguments@,
        }
    }
}

/// The record a fresh index starts from.
pub open spec fn spec_empty_pending() -> PendingToolCallV {
    PendingToolCallV { id: None, name: Seq::empty(), arguments: Seq::empty() }
}

/// Merging one fragment into the accumulation: the first id wins and is
/// never overwritten; name and argument fragments are appended.
pub open spec fn spec_merge_chunk(
    m: Map<u64, PendingToolCallV>,
    c: ToolCallChunkV,
) -> Map<u64, PendingToolCallV> {
    let prev = if m.contains_key(c.index) {
        m[c.index]
    } else {
        spec_empty_pending()
    };
    let merged = PendingToolCallV {
        id: if prev.id is Some {
            prev.id
        } else {
            c.id
        },
        name: prev.name + (match c.name {
            Some(n) => n,
            None => Seq::empty(),
        }),
        arguments: prev.arguments + (match c.arguments {
            Some(a) => a,
            None => Seq::empty(),
        }),
    };
    m.insert(c.index, merged)
}

pub open spec fn spec_merge_chunks(
    m: Map<u64, PendingToolCallV>,
    cs: Seq<ToolCallChunkV>,
) -> Map<u64, PendingToolCallV>
    decreases cs.len(),
{
    if cs.len() == 0 {
        m
    } else {
        spec_merge_chunks(spec_merge_chunk(m, cs.first()), cs.drop_first())
    }
}

pub open spec fn spec_merge_choices(
    m: Map<u64, PendingToolCallV>,
    cs: Seq<ChoiceDeltaV>,
) -> Map<u64, PendingToolCallV>
    decreases cs.len(),
{
    if cs.len() == 0 {
        m
    } else {
        spec_merge_choices(spec_merge_chunks(m, cs.first().delta.tool_calls), cs.drop_first())
    }
}

/// The event one fragment forwards.
pub open spec fn spec_chunk_event(c: ToolCallChunkV) -> CompletionEventV {
    CompletionEventV::ToolCallDelta {
        index: c.index,
        id: c.id,
        name_fragment: c.name,
        arguments_fragment: c.arguments,
    }
}

/// The events one choice contributes, in order: its non-empty text
/// fragment, one delta per tool-call fragment, and a closing event when
/// a finish reason is present.
pub open spec fn spec_events_of_choice(c: ChoiceDeltaV) -> Seq<CompletionEventV> {
    let text = match c.delta.content {
        Some(t) => if t.len() > 0 {
            seq![CompletionEventV::Text(t)]
        } else {
            Seq::empty()
        },
        None => Seq::empty(),
    };
    let chunks = c.delta.tool_calls.map_values(|tc: ToolCallChunkV| spec_chunk_event(tc));
    let done = if c.finish_reason is Some {
        seq![CompletionEventV::Done]
    } else {
        Seq::<CompletionEventV>::empty()
    };
    text + chunks + done
}

pub open spec fn spec_events_of_choices(cs: Seq<ChoiceDeltaV>) -> Seq<CompletionEventV>
    decreases cs.len(),
{
    if cs.len() == 0 {
        Seq::empty()
    } else {
        spec_events_of_choice(cs.first()) + spec_events_of_choices(cs.drop_first())
    }
}

/// The events one stream event contributes: its choices in order. An
/// event without choices — a heartbeat — contributes nothing.
pub open spec fn spec_events_of_event(ev: StreamEventV) -> Seq<CompletionEventV> {
    spec_events_of_choices(ev.choices)
}

pub open spec fn keys_unique(s: Seq<(u64, PendingToolCallV)>) -> bool {
    forall|i: int, j: int| 0 <= i < j < s.len() ==> (#[trigger] s[i]).0 != (#[trigger] s[j]).0
}

/// The map an entry list denotes.
pub open spec fn entries_map(s: Seq<(u64, PendingToolCallV)>) -> Map<u64, PendingToolCallV>
    decreases s.len(),
{
    if s.len() == 0 {
        Map::empty()
    } else {
        entries_map(s.drop_last()).insert(s.last().0, s.last().1)
    }
}

proof fn lemma_entries_contains(s: Seq<(u64, PendingToolCallV)>, k: u64)
    ensures
        entries_map(s).contains_key(k) <==> exists|i: int|
            0 <= i < s.len() && (#[trigger] s[i]).0 == k,
    decreases s.len(),
{
    if s.len() > 0 {
        lemma_entries_contains(s.drop_last(), k);
        if s.last().0 == k {
            assert(s[s.len() - 1].0 == k);
        } else {
            if entries_map(s).contains_key(k) {
                let i = choose|i: int| 0 <= i < s.drop_last().len() && (#[trigger] s.drop_last()[
                    i
                ]).0 == k;
                assert(s[i].0 == k);
            }
            if exists|i: int| 0 <= i < s.len() && (#[trigger] s[i]).0 == k {
                let i = choose|i: int| 0 <= i < s.len() && (#[trigger] s[i]).0 == k;
                assert(i < s.len() - 1);
                assert(s.drop_last()[i].0 == k);
            }
        }
    }
}

proof fn lemma_entries_lookup(s: Seq<(u64, PendingToolCallV)>, k: u64, i: int)
    requires
        keys_unique(s),
        0 <= i < s.len(),
        s[i].0 == k,
    ensures
        entries_map(s).contains_key(k),
        entries_map(s)[k] == s[i].1,
    decreases s.len(),
{
    if i == s.len() - 1 {
    } else {
        assert(s.last().0 != k);
        assert(s.drop_last()[i] == s[i]);
        assert(keys_unique(s.drop_last())) by {
            assert(forall|a: int, b: int|
                0 <= a < b < s.drop_last().len() ==> (#[trigger] s.drop_last()[a]).0 != (
                #[trigger] s.drop_last()[b]).0) by {
                assert(forall|a: int|
                    0 <= a < s.drop_last().len() ==> #[trigger] s.drop_last()[a] == s[a]);
            }
        }
        lemma_entries_lookup(s.drop_last(), k, i);
    }
}

proof fn lemma_entries_update(s: Seq<(u64, PendingToolCallV)>, p: int, v: PendingToolCallV)
    requires
        keys_unique(s),
        0 <= p < s.len(),
    ensures
        entries_map(s.update(p, (s[p].0, v))) =~= entries_map(s).insert(s[p].0, v),
        keys_unique(s.update(p, (s[p].0, v))),
    decreases s.len(),
{
    let k = s[p].0;
    let t = s.update(p, (k, v));
    assert(forall|a: int| 0 <= a < s.len() && a != p ==> #[trigger] t[a] == s[a]);
    assert(keys_unique(t));
    if p == s.len() - 1 {
        assert(t.drop_last() =~= s.drop_last());
        assert(t.last() == (k, v));
        assert(entries_map(s.drop_last()).insert(k, s.last().1).insert(k, v)
            =~= entries_map(s.drop_last()).insert(k, v));
    } else {
        assert(keys_unique(s.drop_last())) by {
            assert(forall|a: int|
                0 <= a < s.drop_last().len() ==> #[trigger] s.drop_last()[a] == s[a]);
        }
        assert(t.drop_last() =~= s.drop_last().update(p, (k, v)));
        assert(s.drop_last()[p] == s[p]);
        lemma_entries_update(s.drop_last(), p, v);
        assert(t.last() == s.last());
        assert(s.last().0 != k);
        assert(entries_map(s.drop_last()).insert(k, v).insert(s.last().0, s.last().1)
            =~= entries_map(s.drop_last()).insert(s.last().0, s.last().1).insert(k, v));
    }
}

/// The mapper's state for one streaming session: the in-progress tool
/// calls, keyed by index.
pub struct EventMapper {
    calls: Vec<(u64, PendingToolCall)>,
}

impl View for EventMapper {
    type V = Map<u64, PendingToolCallV>;

    closed spec fn view(&self) -> Map<u64, PendingToolCallV> {
        entries_map(self.calls@.map_values(|e: (u64, PendingToolCall)| (e.0, e.1@)))
    }
}

impl EventMapper {
    /// The entry keys are distinct, so each index has one accumulation.
    pub closed spec fn wf(&self) -> bool {
        keys_unique(self.calls@.map_values(|e: (u64, PendingToolCall)| (e.0, e.1@)))
    }

    pub fn new() -> (r: EventMapper)
        ensures
            r.wf(),
            r@ == Map::<u64, PendingToolCallV>::empty(),
    {
        let r = EventMapper { calls: Vec::new() };
        proof {
            assert(r.calls@.map_values(|e: (u64, PendingToolCall)| (e.0, e.1@)) =~= Seq::<
                (u64, PendingToolCallV),
            >::empty());
        }
        r
    }

    fn find(&self, index: u64) -> (r: Option<usize>)
        ensures
            match r {
                Some(p) => p < self.calls@.len() && self.calls@[p as int].0 == index,
                None => forall|j: int|
                    0 <= j < self.calls@.len() ==> (#[trigger] self.calls@[j]).0 != index,
            },
    {
        let mut j: usize = 0;
        while j < self.calls.len()
            invariant
                0 <= j <= self.calls@.len(),
                forall|t: int| 0 <= t < j ==> (#[trigger] self.calls@[t]).0 != index,
            decreases self.calls@.len() - j,
        {
            if self.calls[j].0 == index {
                return Some(j);
            }
            j = j + 1;
        }
        None
    }

    /// Merges one fragment into the accumulation at its index.
    fn merge_chunk(&mut self, chunk: &ToolCallChunk)
        requires
            old(self).wf(),
        ensures
            final(self).wf(),
            final(self)@ == spec_merge_chunk(old(self)@, chunk@),
    {
        let ghost pairs = self.calls@.map_values(|e: (u64, PendingToolCall)| (e.0, e.1@));
        match self.find(chunk.index) {
            Some(p) => {
                proof {
                    assert(pairs[p as int].0 == chunk.index);
                    lemma_entries_lookup(pairs, chunk.index, p as int);
                }
                let id = match &self.calls[p].1.id {
                    Some(existing) => Some(existing.clone()),
                    None => match &chunk.id {
                        Some(new_id) => Some(new_id.clone()),
                        None => None,
                    },
                };
                let mut name = self.calls[p].1.name.clone();
                if let Some(n) = &chunk.name {
                    name.append(n.as_str());
                }
                let mut arguments = self.calls[p].1.arguments.clone();
                if let Some(a) = &chunk.arguments {
                    arguments.append(a.as_str());
                }
                let merged = PendingToolCall { id, name, arguments };
                proof {
                    assert(merged@ == spec_merge_chunk(old(self)@, chunk@)[chunk@.index]);
                    lemma_entries_update(pairs, p as int, merged@);
                }
                let key = self.calls[p].0;
                self.calls.set(p, (key, merged));
                proof {
                    assert(self.calls@.map_values(|e: (u64, PendingToolCall)| (e.0, e.1@))
                        =~= pairs.update(p as int, (chunk@.index, merged@)));
                    assert(final(self)@ =~= spec_merge_chunk(old(self)@, chunk@));
                }
            },
            None => {
                proof {
                    assert(forall|j: int|
                        0 <= j < pairs.len() ==> (#[trigger] pairs[j]).0 != chunk.index);
                    lemma_entries_contains(pairs, chunk.index);
                    assert(!old(self)@.contains_key(chunk@.index));
                }
                let id = match &chunk.id {
                    Some(new_id) => Some(new_id.clone()),
                    None => None,
                };
                let mut name = String::new();
                if let Some(n) = &chunk.name {
                    name.append(n.as_str());
                }
                let mut arguments = String::new();
                if let Some(a) = &chunk.arguments {
                    arguments.append(a.as_str());
                }
                let fresh = PendingToolCall { id, name, arguments };
                proof {
                    assert(fresh@ == spec_merge_chunk(old(self)@, chunk@)[chunk@.index]);
                }
                self.calls.push((chunk.index, fresh));
                proof {
                    let now = self.calls@.map_values(|e: (u64, PendingToolCall)| (e.0, e.1@));
                    assert(now =~= pairs.push((chunk@.index, fresh@)));
                    assert(now.drop_last() =~= pairs);
                    assert(final(self)@ =~= spec_merge_chunk(old(self)@, chunk@));
                    assert(keys_unique(now));
                }
            },
        }
    }

    /// The accumulated record of one index, if any fragment has arrived
    /// for it.
    pub fn tool_call(&self, index: u64) -> (r: Option<&PendingToolCall>)
        requires
            self.wf(),
        ensures
            match r {
                Some(p) => self@.contains_key(index) && p@ == self@[index],
                None => !self@.contains_key(index),
            },
    {
        let ghost pairs = self.calls@.map_values(|e: (u64, PendingToolCall)| (e.0, e.1@));
        proof {
            lemma_entries_contains(pairs, index);
        }
        match self.find(index) {
            Some(p) => {
                proof {
                    assert(pairs[p as int].0 == index);
                    lemma_entries_lookup(pairs, index, p as int);
                }
                Some(&self.calls[p].1)
            },
            None => {
                proof {
                    assert(forall|j: int|
                        0 <= j < pairs.len() ==> (#[trigger] pairs[j]).0 != index);
                }
                None
            },
        }
    }

    /// Maps one wire event to its completion events, in order, and folds
    /// every tool-call fragment into the accumulator.
    #[verifier::loop_isolation(false)]
    pub fn map_event(&mut self, ev: &StreamEvent) -> (out: Vec<CompletionEvent>)
        requires
            old(self).wf(),
        ensures
            final(self).wf(),
            out@.map_values(|e: CompletionEvent| e@) == spec_events_of_event(ev@),
            final(self)@ == spec_merge_choices(old(self)@, ev@.choices),
    {
        let ghost choicesv = ev@.choices;
        let mut out: Vec<CompletionEvent> = Vec::new();
        let mut ci: usize = 0;
        proof {
            assert(choicesv.skip(0) =~= choicesv);
            assert(out@.map_values(|e: CompletionEvent| e@) =~= Seq::<CompletionEventV>::empty());
        }
        while ci < ev.choices.len()
            invariant
                0 <= ci <= choicesv.len(),
                self.wf(),
                out@.map_values(|e: CompletionEvent| e@) + spec_events_of_choices(
                    choicesv.skip(ci as int),
                ) =~= spec_events_of_choices(choicesv),
                spec_merge_choices(self@, choicesv.skip(ci as int)) == spec_merge_choices(
                    old(self)@,
                    choicesv,
                ),
            decreases choicesv.len() - ci,
        {
            proof {
                assert(ev.choices@[ci as int]@ == choicesv[ci as int]);
                assert(choicesv.skip(ci as int).first() == choicesv[ci as int]);
                assert(choicesv.skip(ci as int).drop_first() =~= choicesv.skip(ci as int + 1));
            }
            let choice = &ev.choices[ci];
            let ghost cv = choicesv[ci as int];
            let ghost pre_events = out@;
            if let Some(t) = &choice.delta.content {
                if t.unicode_len() > 0 {
                    out.push(CompletionEvent::Text(t.clone()));
                }
            }
            proof {
                let text = match cv.delta.content {
                    Some(t) => if t.len() > 0 {
                        seq![CompletionEventV::Text(t)]
                    } else {
                        Seq::<CompletionEventV>::empty()
                    },
                    None => Seq::<CompletionEventV>::empty(),
                };
                assert(out@.map_values(|e: CompletionEvent| e@) =~= pre_events.map_values(
                    |e: CompletionEvent| e@,
                ) + text);
            }
            let ghost chunksv = cv.delta.tool_calls;
            let ghost pre_text = out@;
            let ghost pre_map = self@;
            let mut ki: usize = 0;
            proof {
                assert(chunksv.skip(0) =~= chunksv);
            }
            while ki < choice.delta.tool_calls.len()
                invariant
                    0 <= ki <= chunksv.len(),
                    self.wf(),
                    chunksv == cv.delta.tool_calls,
                    choice.delta.tool_calls@.map_values(|t: ToolCallChunk| t@) == chunksv,
                    out@.map_values(|e: CompletionEvent| e@) =~= pre_text.map_values(
                        |e: CompletionEvent| e@,
                    ) + chunksv.take(ki as int).map_values(
                        |tc: ToolCallChunkV| spec_chunk_event(tc),
                    ),
                    spec_merge_chunks(self@, chunksv.skip(ki as int)) == spec_merge_chunks(
                        pre_map,
                        chunksv,
                    ),
                decreases chunksv.len() - ki,
            {
                proof {
                    assert(choice.delta.tool_calls@[ki as int]@ == chunksv[ki as int]);
                    assert(chunksv.skip(ki as int).first() == chunksv[ki as int]);
                    assert(chunksv.skip(ki as int).drop_first() =~= chunksv.skip(ki as int + 1));
                }
                let chunk = &choice.delta.tool_calls[ki];
                let ghost pre_chunk_events = out@;
                self.merge_chunk(chunk);
                let id = match &chunk.id {
                    Some(s) => Some(s.clone()),
                    None => None,
                };
                let name_fragment = match &chunk.name {
                    Some(s) => Some(s.clone()),
                    None => None,
                };
                let arguments_fragment = match &chunk.arguments {
                    Some(s) => Some(s.clone()),
                    None => None,
                };
                out.push(CompletionEvent::ToolCallDelta {
                    index: chunk.index,
                    id,
                    name_fragment,
                    arguments_fragment,
                });
                proof {
                    assert(out@.last()@ == spec_chunk_event(chunksv[ki as int]));
                    assert(out@.map_values(|e: CompletionEvent| e@) =~= pre_chunk_events.map_values(
                        |e: CompletionEvent| e@,
                    ) + seq![spec_chunk_event(chunksv[ki as int])]);
                    assert(chunksv.take(ki as int + 1) =~= chunksv.take(ki as int).push(
                        chunksv[ki as int],
                    ));
                    assert(chunksv.take(ki as int + 1).map_values(
                        |tc: ToolCallChunkV| spec_chunk_event(tc),
                    ) =~= chunksv.take(ki as int).map_values(
                        |tc: ToolCallChunkV| spec_chunk_event(tc),
                    ).push(spec_chunk_event(chunksv[ki as int])));
                }
                ki = ki + 1;
            }
            proof {
                assert(chunksv.take(chunksv.len() as int) =~= chunksv);
                assert(chunksv.skip(chunksv.len() as int) =~= Seq::<ToolCallChunkV>::empty());
            }
            let ghost after_chunks = out@;
            if choice.finish_reason.is_some() {
                out.push(CompletionEvent::Done);
            }
            proof {
                let textv = match cv.delta.content {
                    Some(t) => if t.len() > 0 {
                        seq![CompletionEventV::Text(t)]
                    } else {
                        Seq::<CompletionEventV>::empty()
                    },
                    None => Seq::<CompletionEventV>::empty(),
                };
                let chunkv = cv.delta.tool_calls.map_values(
                    |tc: ToolCallChunkV| spec_chunk_event(tc),
                );
                assert(after_chunks.map_values(|e: CompletionEvent| e@) =~= pre_events.map_values(
                    |e: CompletionEvent| e@,
                ) + textv + chunkv);
                if cv.finish_reason is Some {
                    assert(out@ =~= after_chunks.push(CompletionEvent::Done));
                    assert(out@.map_values(|e: CompletionEvent| e@) =~= after_chunks.map_values(
                        |e: CompletionEvent| e@,
                    ) + seq![CompletionEventV::Done]);
                } else {
                    assert(out@ == after_chunks);
                }
                assert(out@.map_values(|e: CompletionEvent| e@) =~= pre_events.map_values(
                    |e: CompletionEvent| e@,
                ) + spec_events_of_choice(cv));
                assert(self@ == spec_merge_chunks(pre_map, chunksv));
                assert(spec_merge_choices(pre_map, choicesv.skip(ci as int)) == spec_merge_choices(
                    spec_merge_chunks(pre_map, chunksv),
                    choicesv.skip(ci as int + 1),
                ));
            }
            ci = ci + 1;
        }
        proof {
            assert(choicesv.skip(ci as int) =~= Seq::<ChoiceDeltaV>::empty());
            assert(out@.map_values(|e: CompletionEvent| e@) + Seq::<CompletionEventV>::empty()
                =~= out@.map_values(|e: CompletionEvent| e@));
        }
        out
    }
}

} // verus!
