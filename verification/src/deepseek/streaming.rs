//! The reconstruction of DeepSeek's streamed responses.
//!
//! A stream arrives as chunks. Each chunk may carry a piece of text, a piece
//! of reasoning, fragments of tool calls and a usage record. Text and
//! reasoning are handed on at once. A tool call may come whole in one
//! fragment, or as a start followed by continuations that spell out its
//! arguments: those are buffered under the call's index and parsed when the
//! stream ends.

use vstd::prelude::*;
use vstd::std_specs::iter::IteratorSpec;
use std::collections::HashMap;
use crate::completion::{CompletionError, CompletionErrorView, Usage};
use crate::deepseek::message::{DsMessage, DsMessageView};
use crate::deepseek::rsp_req::DsUsage;
use crate::deepseek::tool::{DsFunction, DsFunctionView, DsToolCall, DsToolCallView, DsToolType};
use crate::json::{json_value_of, parse_json};
use crate::streaming::{
    group_item_views, item_views, StreamItem, StreamItemView, StreamingEvent, StreamingEventView,
};
use crate::text::{blank, is_blank};
use crate::views::{filter_map, group_views, lemma_filter_map_step, views};

verus! {

broadcast use {group_views, group_item_views, vstd::std_specs::hash::group_hash_axioms};

/// The function part of a tool-call fragment.
#[derive(Clone, Debug, PartialEq)]
pub struct StreamingFunction {
    pub name: Option<String>,
    pub arguments: String,
}

/// One fragment of a tool call in a streamed chunk.
#[derive(Clone, Debug, PartialEq)]
pub struct StreamingToolCall {
    /// The index under which the stream numbers the call.
    pub index: usize,
    pub id: Option<String>,
    pub function: StreamingFunction,
}

/// The model of `StreamingToolCall`: its mathematical view.
pub struct StreamingToolCallView {
    pub index: usize,
    pub id: Option<Seq<char>>,
    pub name: Option<Seq<char>>,
    pub arguments: Seq<char>,
}

impl DeepView for StreamingToolCall {
    type V = StreamingToolCallView;

    open spec fn deep_view(&self) -> StreamingToolCallView {
        StreamingToolCallView {
            index: self.index,
            id: self.id.deep_view(),
            name: self.function.name.deep_view(),
            arguments: self.function.arguments@,
        }
    }
}

/// What a fragment of a tool call is, by its name and arguments.
#[derive(Clone, Copy, Debug, PartialEq, Eq, Structural)]
pub enum FragmentKind {
    /// A name and no arguments: the call begins.
    Start,
    /// Arguments and no name: more of the arguments of a call that began.
    Continuation,
    /// Anything else: the whole call at once.
    Complete,
}

/// The response type of a DeepSeek stream's events.
pub type DsEvent = StreamingEvent<DsStreamingCompletionResponse>;

/// The model of `DsEvent`: its mathematical view.
pub type DsEventView = StreamingEventView<DsStreamingCompletionResponse>;

impl StreamingToolCallView {
    /// Whether the fragment has a name that is not empty.
    pub open spec fn named(self) -> bool {
        self.name matches Some(name) && name.len() > 0
    }

    /// What the fragment is, by its name and arguments.
    pub open spec fn kind(self) -> FragmentKind {
        if self.named() && self.arguments.len() == 0 {
            FragmentKind::Start
        } else if !self.named() && self.arguments.len() > 0 {
            FragmentKind::Continuation
        } else {
            FragmentKind::Complete
        }
    }

    /// The id of the call, empty where the fragment has none.
    pub open spec fn call_id(self) -> Seq<char> {
        match self.id {
            Some(id) => id,
            None => Seq::empty(),
        }
    }

    /// The name of the call, empty where the fragment has none.
    pub open spec fn call_name(self) -> Seq<char> {
        match self.name {
            Some(name) => name,
            None => Seq::empty(),
        }
    }

    /// The event that the fragment causes at once: a tool call, where the
    /// fragment is a whole call and its arguments parse.
    pub open spec fn event(self) -> Option<DsEventView> {
        if self.kind() == FragmentKind::Complete {
            match json_value_of(self.arguments) {
                Some(arguments) => Some(
                    StreamingEventView::ToolCall {
                        id: self.call_id(),
                        name: self.call_name(),
                        arguments,
                        call_id: None,
                    },
                ),
                None => None,
            }
        } else {
            None
        }
    }

    /// `event`, as a function.
    pub open spec fn event_fn() -> spec_fn(StreamingToolCallView) -> Option<DsEventView> {
        |fragment: StreamingToolCallView| fragment.event()
    }
}

impl StreamingToolCall {
    /// What the fragment is.
    pub fn kind(&self) -> (r: FragmentKind)
        ensures
            r == self.deep_view().kind(),
    {
        let named = match &self.function.name {
            Some(name) => !name.as_str().is_empty(),
            None => false,
        };
        let has_arguments = !self.function.arguments.as_str().is_empty();
        if named && !has_arguments {
            FragmentKind::Start
        } else if !named && has_arguments {
            FragmentKind::Continuation
        } else {
            FragmentKind::Complete
        }
    }
}

/// What one chunk adds to the answer.
#[derive(Clone, Debug, PartialEq)]
pub struct StreamingDelta {
    pub content: Option<String>,
    pub tool_calls: Vec<StreamingToolCall>,
    pub reasoning_content: Option<String>,
}

/// The model of `StreamingDelta`: its mathematical view.
pub struct StreamingDeltaView {
    pub content: Option<Seq<char>>,
    pub tool_calls: Seq<StreamingToolCallView>,
    pub reasoning_content: Option<Seq<char>>,
}

impl DeepView for StreamingDelta {
    type V = StreamingDeltaView;

    open spec fn deep_view(&self) -> StreamingDeltaView {
        StreamingDeltaView {
            content: self.content.deep_view(),
            tool_calls: self.tool_calls.deep_view(),
            reasoning_content: self.reasoning_content.deep_view(),
        }
    }
}

/// One alternative of a streamed chunk.
#[derive(Clone, Debug, PartialEq)]
pub struct StreamingChoice {
    pub delta: StreamingDelta,
}

impl DeepView for StreamingChoice {
    type V = StreamingDeltaView;

    open spec fn deep_view(&self) -> StreamingDeltaView {
        self.delta.deep_view()
    }
}

/// One chunk of a streamed response.
#[derive(Clone, Debug, PartialEq)]
pub struct StreamingCompletionChunk {
    pub choices: Vec<StreamingChoice>,
    pub usage: Option<DsUsage>,
}

/// The model of `StreamingCompletionChunk`: its mathematical view.
pub struct StreamingCompletionChunkView {
    pub choices: Seq<StreamingDeltaView>,
    pub usage: Option<DsUsage>,
}

impl DeepView for StreamingCompletionChunk {
    type V = StreamingCompletionChunkView;

    open spec fn deep_view(&self) -> StreamingCompletionChunkView {
        StreamingCompletionChunkView { choices: self.choices.deep_view(), usage: self.usage }
    }
}

/// What a DeepSeek stream reports at its end: the usage it saw last.
#[derive(Clone, Copy, Debug, PartialEq, Eq, Structural)]
pub struct DsStreamingCompletionResponse {
    pub usage: DsUsage,
}

impl DeepView for DsStreamingCompletionResponse {
    type V = DsStreamingCompletionResponse;

    open spec fn deep_view(&self) -> DsStreamingCompletionResponse {
        *self
    }
}

impl DsStreamingCompletionResponse {
    /// The usage in the unified form.
    pub fn token_usage(&self) -> (r: Option<Usage>)
        ensures
            r == Some(self.usage.unified()),
    {
        Some(self.usage.token_usage())
    }
}

/// A tool call whose arguments are still arriving.
#[derive(Clone, Debug, PartialEq)]
pub struct ToolCallBuffer {
    pub id: String,
    pub name: String,
    /// The text of the arguments as far as it has arrived.
    pub arguments: String,
}

/// The model of `ToolCallBuffer`: its mathematical view.
pub struct ToolCallBufferView {
    pub id: Seq<char>,
    pub name: Seq<char>,
    pub arguments: Seq<char>,
}

impl View for ToolCallBuffer {
    type V = ToolCallBufferView;

    open spec fn view(&self) -> ToolCallBufferView {
        ToolCallBufferView { id: self.id@, name: self.name@, arguments: self.arguments@ }
    }
}

/// The open tool calls of a stream, by index.
pub type Buffers = Map<usize, ToolCallBufferView>;

/// The open tool calls after one more fragment.
///
/// A start opens a buffer under its index, replacing one that was there. A
/// continuation adds its arguments to the buffer under its index; where none
/// is open it is dropped. A whole call leaves the buffers alone.
pub open spec fn buffers_after_fragment(buffers: Buffers, fragment: StreamingToolCallView) -> Buffers {
    match fragment.kind() {
        FragmentKind::Start => buffers.insert(
            fragment.index,
            ToolCallBufferView {
                id: fragment.call_id(),
                name: fragment.call_name(),
                arguments: Seq::empty(),
            },
        ),
        FragmentKind::Continuation => if buffers.contains_key(fragment.index) {
            let open = buffers[fragment.index];
            buffers.insert(
                fragment.index,
                ToolCallBufferView {
                    id: open.id,
                    name: open.name,
                    arguments: open.arguments + fragment.arguments,
                },
            )
        } else {
            buffers
        },
        FragmentKind::Complete => buffers,
    }
}

/// The open tool calls after a list of fragments, taken in order.
pub open spec fn buffers_after(buffers: Buffers, fragments: Seq<StreamingToolCallView>) -> Buffers
    decreases fragments.len(),
{
    if fragments.len() == 0 {
        buffers
    } else {
        buffers_after_fragment(buffers_after(buffers, fragments.drop_last()), fragments.last())
    }
}

/// What one more fragment adds to `buffers_after`.
pub proof fn lemma_buffers_after_step(
    buffers: Buffers,
    fragments: Seq<StreamingToolCallView>,
    i: int,
)
    requires
        0 <= i < fragments.len(),
    ensures
        buffers_after(buffers, fragments.take(i + 1)) == buffers_after_fragment(
            buffers_after(buffers, fragments.take(i)),
            fragments[i],
        ),
{
    assert(fragments.take(i + 1).drop_last() =~= fragments.take(i));
}

/// The state of a stream between two chunks.
pub struct DsStreamView {
    /// The text that has arrived.
    pub text: Seq<char>,
    /// The open tool calls.
    pub buffers: Buffers,
    /// The usage record that arrived last.
    pub usage: DsUsage,
}

impl StreamingCompletionChunkView {
    /// The events that the chunk causes at once: the tool calls that came
    /// whole, then the reasoning, then the text. Only the first choice counts.
    pub open spec fn events(self) -> Seq<DsEventView> {
        if self.choices.len() == 0 {
            Seq::empty()
        } else {
            let delta = self.choices[0];
            filter_map(delta.tool_calls, StreamingToolCallView::event_fn()) + match delta.reasoning_content {
                Some(reasoning) => seq![StreamingEventView::Reasoning { id: None, reasoning }],
                None => Seq::empty(),
            } + match delta.content {
                Some(text) => seq![StreamingEventView::Message(text)],
                None => Seq::empty(),
            }
        }
    }
}

impl DsStreamView {
    /// The state of a stream before its first chunk.
    pub open spec fn start() -> DsStreamView {
        DsStreamView { text: Seq::empty(), buffers: Map::empty(), usage: DsUsage::zero() }
    }

    /// The state after one more chunk: the fragments of the first choice
    /// applied in order, its text added to the text, and the chunk's usage
    /// record, if it has one, in place of the one before.
    pub open spec fn after_chunk(self, chunk: StreamingCompletionChunkView) -> DsStreamView {
        let usage = match chunk.usage {
            Some(usage) => usage,
            None => self.usage,
        };
        if chunk.choices.len() == 0 {
            DsStreamView { text: self.text, buffers: self.buffers, usage }
        } else {
            let delta = chunk.choices[0];
            DsStreamView {
                text: match delta.content {
                    Some(text) => self.text + text,
                    None => self.text,
                },
                buffers: buffers_after(self.buffers, delta.tool_calls),
                usage,
            }
        }
    }
}

/// The state of one stream.
pub struct DsStream {
    text: String,
    calls: HashMap<usize, ToolCallBuffer>,
    usage: DsUsage,
}

impl View for DsStream {
    type V = DsStreamView;

    closed spec fn view(&self) -> DsStreamView {
        DsStreamView {
            text: self.text@,
            buffers: self.calls@.map_values(|buffer: ToolCallBuffer| buffer@),
            usage: self.usage,
        }
    }
}

impl DsStream {
    /// A stream before its first chunk.
    pub fn new() -> (r: DsStream)
        ensures
            r@ == DsStreamView::start(),
    {
        let r = DsStream { text: String::new(), calls: HashMap::new(), usage: DsUsage::new() };
        assert(r@.buffers =~= Map::empty());
        r
    }

    /// Takes one fragment of a tool call. Gives the tool call event where the
    /// fragment is a whole call whose arguments parse.
    fn on_fragment(&mut self, fragment: StreamingToolCall) -> (r: Option<DsEvent>)
        ensures
            final(self)@.text == old(self)@.text,
            final(self)@.usage == old(self)@.usage,
            final(self)@.buffers == buffers_after_fragment(
                old(self)@.buffers,
                fragment.deep_view(),
            ),
            r.deep_view() == fragment.deep_view().event(),
    {
        let kind = fragment.kind();
        let StreamingToolCall { index, id, function } = fragment;
        let StreamingFunction { name, arguments } = function;
        let id = match id {
            Some(id) => id,
            None => String::new(),
        };
        let name = match name {
            Some(name) => name,
            None => String::new(),
        };
        match kind {
            FragmentKind::Start => {
                self.calls.insert(index, ToolCallBuffer { id, name, arguments: String::new() });
                assert(self@.buffers =~= buffers_after_fragment(
                    old(self)@.buffers,
                    fragment.deep_view(),
                ));
                None
            },
            FragmentKind::Continuation => {
                match self.calls.remove(&index) {
                    Some(open) => {
                        let ToolCallBuffer { id, name, arguments: mut text } = open;
                        text.append(arguments.as_str());
                        self.calls.insert(index, ToolCallBuffer { id, name, arguments: text });
                    },
                    None => {},
                }
                assert(self@.buffers =~= buffers_after_fragment(
                    old(self)@.buffers,
                    fragment.deep_view(),
                ));
                None
            },
            FragmentKind::Complete => {
                match parse_json(arguments.as_str()) {
                    Some(value) => Some(
                        StreamingEvent::ToolCall { id, name, arguments: value, call_id: None },
                    ),
                    None => None,
                }
            },
        }
    }

    /// Takes one chunk: gives the events that it causes at once, in order.
    pub fn on_chunk(&mut self, chunk: StreamingCompletionChunk) -> (r: Vec<DsEvent>)
        ensures
            final(self)@ == old(self)@.after_chunk(chunk.deep_view()),
            r.deep_view() == chunk.deep_view().events(),
    {
        let StreamingCompletionChunk { choices, usage } = chunk;
        let mut choices = choices;
        let mut events: Vec<DsEvent> = Vec::new();
        if choices.len() > 0 {
            let choice = choices.swap_remove(0);
            let StreamingDelta { content, tool_calls, reasoning_content } = choice.delta;
            let ghost fragments = views(tool_calls@);
            for fragment in it: tool_calls
                invariant
                    views(it.seq()) == fragments,
                    self@.text == old(self)@.text,
                    self@.usage == old(self)@.usage,
                    self@.buffers == buffers_after(
                        old(self)@.buffers,
                        fragments.take(it.index() as int),
                    ),
                    events.deep_view() == filter_map(
                        fragments.take(it.index() as int),
                        StreamingToolCallView::event_fn(),
                    ),
            {
                proof {
                    lemma_buffers_after_step(old(self)@.buffers, fragments, it.index() as int);
                    lemma_filter_map_step(
                        fragments,
                        StreamingToolCallView::event_fn(),
                        it.index() as int,
                    );
                }
                match self.on_fragment(fragment) {
                    Some(event) => {
                        events.push(event);
                    },
                    None => {},
                }
            }
            proof {
                assert(fragments.take(fragments.len() as int) =~= fragments);
            }
            match reasoning_content {
                Some(reasoning) => {
                    events.push(StreamingEvent::Reasoning { id: None, reasoning });
                },
                None => {},
            }
            match content {
                Some(text) => {
                    self.text.append(text.as_str());
                    events.push(StreamingEvent::Message(text));
                },
                None => {},
            }
        }
        match usage {
            Some(usage) => {
                self.usage = usage;
            },
            None => {},
        }
        events
    }
}

/// Whether `key` is the least index, from `lo` on, under which a tool call is
/// open.
pub open spec fn is_least_from(buffers: Buffers, lo: int, key: usize) -> bool {
    &&& buffers.contains_key(key)
    &&& key >= lo
    &&& forall|other: usize| buffers.contains_key(other) && other >= lo ==> key <= other
}

/// The tool call that an open buffer gives when the stream ends: none where
/// its arguments do not parse.
pub open spec fn flushed_call(index: usize, buffer: ToolCallBufferView) -> Seq<DsToolCallView> {
    match json_value_of(buffer.arguments) {
        Some(arguments) => seq![
            DsToolCallView {
                id: buffer.id,
                index,
                kind: DsToolType::Function,
                function: DsFunctionView { name: buffer.name, arguments },
            },
        ],
        None => Seq::empty(),
    }
}

/// The tool calls that the buffers with an index from `lo` on give when the
/// stream ends, by ascending index.
pub open spec fn flushed_from(buffers: Buffers, lo: int) -> Seq<DsToolCallView>
    decreases usize::MAX + 1 - lo,
{
    if 0 <= lo <= usize::MAX && exists|key: usize| is_least_from(buffers, lo, key) {
        let key = choose|key: usize| is_least_from(buffers, lo, key);
        flushed_call(key, buffers[key]) + flushed_from(buffers, key + 1)
    } else {
        Seq::empty()
    }
}

/// The event that tells of a tool call that was put together from
/// fragments.
pub open spec fn flushed_event() -> spec_fn(DsToolCallView) -> DsEventView {
    |call: DsToolCallView|
        StreamingEventView::ToolCall {
            id: call.id,
            name: call.function.name,
            arguments: call.function.arguments,
            call_id: None,
        }
}

impl DsStreamView {
    /// The tool calls that were put together from fragments, by ascending
    /// index. A call whose arguments do not parse is left out.
    pub open spec fn flushed(self) -> Seq<DsToolCallView> {
        flushed_from(self.buffers, 0)
    }

    /// The events with which the stream ends: one tool call event for each
    /// flushed call, then the final response with the usage seen last.
    pub open spec fn end_events(self) -> Seq<DsEventView> {
        self.flushed().map_values(flushed_event()).push(
            StreamingEventView::FinalResponse(DsStreamingCompletionResponse { usage: self.usage }),
        )
    }

    /// The assistant message that the stream amounts to, for the record: the
    /// text that arrived and the calls that were put together from fragments.
    pub open spec fn audit_message(self) -> DsMessageView {
        DsMessageView::Assistant { content: self.text, name: None, tool_calls: self.flushed() }
    }
}

/// What only one least key can be.
pub proof fn lemma_least_from_unique(buffers: Buffers, lo: int, key: usize)
    requires
        is_least_from(buffers, lo, key),
        0 <= lo,
    ensures
        flushed_from(buffers, lo) == flushed_call(key, buffers[key]) + flushed_from(
            buffers,
            key + 1,
        ),
{
    let chosen = choose|k: usize| is_least_from(buffers, lo, k);
    assert(is_least_from(buffers, lo, chosen));
    assert(chosen == key);
}

/// Without an open call from `lo` on, nothing is flushed from there.
pub proof fn lemma_flushed_from_none(buffers: Buffers, lo: int)
    requires
        forall|key: usize| buffers.contains_key(key) ==> key < lo,
    ensures
        flushed_from(buffers, lo) == Seq::<DsToolCallView>::empty(),
{
}

impl DsStream {
    /// The least index, from `lo` on, under which a tool call is open.
    fn least_key_from(&self, lo: usize) -> (r: Option<usize>)
        ensures
            match r {
                Some(key) => is_least_from(self@.buffers, lo as int, key),
                None => forall|key: usize| self@.buffers.contains_key(key) ==> key < lo,
            },
    {
        let mut best: Option<usize> = None;
        let keys = self.calls.keys();
        let ghost all = keys.remaining().unref();
        let ghost mut seen: int = 0;
        assert(all.to_set() == self.calls@.dom());
        for key in it: keys
            invariant
                it.seq().unref() == all,
                seen == it.index(),
                all.to_set() == self.calls@.dom(),
                forall|i: int|
                    0 <= i < seen && (#[trigger] all[i]) >= lo ==> best is Some && best->0
                        <= all[i],
                best matches Some(b) ==> self.calls@.contains_key(b) && b >= lo,
        {
            proof {
                assert(all[seen] == *key);
                assert(all.to_set().contains(*key));
                seen = seen + 1;
            }
            if *key >= lo {
                match best {
                    Some(b) => {
                        if *key < b {
                            best = Some(*key);
                        }
                    },
                    None => {
                        best = Some(*key);
                    },
                }
            }
        }
        proof {
            assert(seen == all.len());
            assert forall|key: usize| self@.buffers.contains_key(key) && key >= lo implies best
                is Some && best->0 <= key by {
                assert(self.calls@.dom().contains(key));
                assert(all.to_set().contains(key));
                let i = choose|i: int| 0 <= i < all.len() && all[i] == key;
                assert(all[i] >= lo);
            }
        }
        best
    }

    /// Ends the stream: gives the events with which it ends and the
    /// assistant message that it amounts to.
    pub fn finish(self) -> (r: (Vec<DsEvent>, DsMessage))
        ensures
            r.0.deep_view() == self@.end_events(),
            r.1@ == self@.audit_message(),
    {
        let ghost buffers = self@.buffers;
        let mut calls: Vec<DsToolCall> = Vec::new();
        let mut events: Vec<DsEvent> = Vec::new();
        let mut lo: usize = 0;
        let mut more = true;
        while more
            invariant
                buffers == self@.buffers,
                more ==> calls.deep_view() + flushed_from(buffers, lo as int) == flushed_from(
                    buffers,
                    0,
                ),
                !more ==> calls.deep_view() == flushed_from(buffers, 0),
                events.deep_view() == calls.deep_view().map_values(flushed_event()),
            decreases
                    (if more {
                        usize::MAX - lo + 1
                    } else {
                        0
                    }),
        {
            match self.least_key_from(lo) {
                None => {
                    proof {
                        lemma_flushed_from_none(buffers, lo as int);
                        assert(calls.deep_view() + Seq::<DsToolCallView>::empty()
                            =~= calls.deep_view());
                    }
                    more = false;
                },
                Some(key) => {
                    proof {
                        lemma_least_from_unique(buffers, lo as int, key);
                    }
                    let ghost before = calls.deep_view();
                    match self.calls.get(&key) {
                        Some(buffer) => {
                            match parse_json(buffer.arguments.as_str()) {
                                Some(value) => {
                                    calls.push(
                                        DsToolCall {
                                            id: buffer.id.clone(),
                                            index: key,
                                            kind: DsToolType::Function,
                                            function: DsFunction {
                                                name: buffer.name.clone(),
                                                arguments: value.clone(),
                                            },
                                        },
                                    );
                                    events.push(
                                        StreamingEvent::ToolCall {
                                            id: buffer.id.clone(),
                                            name: buffer.name.clone(),
                                            arguments: value,
                                            call_id: None,
                                        },
                                    );
                                    proof {
                                        let f = flushed_event();
                                        assert(calls.deep_view().map_values(f)
                                            =~= before.map_values(f).push(
                                            f(calls.deep_view().last()),
                                        ));
                                    }
                                },
                                None => {},
                            }
                        },
                        None => {},
                    }
                    proof {
                        assert(calls.deep_view() =~= before + flushed_call(key, buffers[key]));
                        assert(before + (flushed_call(key, buffers[key]) + flushed_from(
                            buffers,
                            key + 1,
                        )) =~= (before + flushed_call(key, buffers[key])) + flushed_from(
                            buffers,
                            key + 1,
                        ));
                    }
                    if key == usize::MAX {
                        proof {
                            assert(flushed_from(buffers, key + 1) =~= Seq::empty());
                            assert(calls.deep_view() + Seq::<DsToolCallView>::empty()
                                =~= calls.deep_view());
                        }
                        more = false;
                    } else {
                        lo = key + 1;
                    }
                },
            }
        }
        events.push(
            StreamingEvent::FinalResponse(DsStreamingCompletionResponse { usage: self.usage }),
        );
        let message = DsMessage::Assistant { content: self.text, name: None, tool_calls: calls };
        (events, message)
    }
}

/// What the transport of a stream hands over, one at a time.
#[derive(Clone, Debug, PartialEq)]
pub enum Transport {
    /// The connection is open.
    Opened,
    /// A message arrived: its text and, where the text is a well-formed
    /// chunk, the chunk.
    Message { data: String, chunk: Option<StreamingCompletionChunk> },
    /// The stream has ended.
    Ended,
    /// The connection failed, with the transport's description of it.
    Failed(String),
}

/// The model of `Transport`: its mathematical view.
pub enum TransportView {
    Opened,
    Message { data: Seq<char>, chunk: Option<StreamingCompletionChunkView> },
    Ended,
    Failed(Seq<char>),
}

impl DeepView for Transport {
    type V = TransportView;

    open spec fn deep_view(&self) -> TransportView {
        match self {
            Transport::Opened => TransportView::Opened,
            Transport::Message { data, chunk } => TransportView::Message {
                data: data@,
                chunk: chunk.deep_view(),
            },
            Transport::Ended => TransportView::Ended,
            Transport::Failed(text) => TransportView::Failed(text@),
        }
    }
}

/// Whether the text of a message is meant as a chunk: a blank text and the
/// end marker `[DONE]` are not.
pub open spec fn payload(data: Seq<char>) -> bool {
    !blank(data) && data != "[DONE]"@
}

/// Whether the text of a message is meant as a chunk.
pub fn is_payload(data: &str) -> (r: bool)
    ensures
        r == payload(data@),
{
    if is_blank(data) {
        false
    } else {
        let text = data.to_owned();
        let marker = "[DONE]".to_owned();
        text != marker
    }
}

/// The items of a DeepSeek stream.
pub type DsItem = StreamItem<DsStreamingCompletionResponse>;

/// The model of `DsItem`: its mathematical view.
pub type DsItemView = StreamItemView<DsStreamingCompletionResponse>;

/// The events `events`, each as an item of the stream.
pub open spec fn as_items(events: Seq<DsEventView>) -> Seq<DsItemView> {
    events.map_values(|event: DsEventView| Ok::<DsEventView, CompletionErrorView>(event))
}

impl TransportView {
    /// The chunk that the stream takes up: the chunk of a message whose text
    /// is meant as one and is well formed. Anything else of a message is
    /// skipped.
    pub open spec fn chunk(self) -> Option<StreamingCompletionChunkView> {
        match self {
            TransportView::Message { data, chunk } => if payload(data) {
                chunk
            } else {
                None
            },
            _ => None,
        }
    }

    /// Whether the stream ends here.
    pub open spec fn ends(self) -> bool {
        self is Ended || self is Failed
    }

    /// What the stream hands on at once: the events of the chunk, or the
    /// error of a failed connection.
    pub open spec fn items(self) -> Seq<DsItemView> {
        match self {
            TransportView::Failed(text) => seq![
                Err::<DsEventView, _>(CompletionErrorView::ResponseError(text)),
            ],
            _ => match self.chunk() {
                Some(chunk) => as_items(chunk.events()),
                None => Seq::empty(),
            },
        }
    }
}

impl DsStreamView {
    /// The state after the transport handed `input` over.
    pub open spec fn after(self, input: TransportView) -> DsStreamView {
        match input.chunk() {
            Some(chunk) => self.after_chunk(chunk),
            None => self,
        }
    }

    /// All that a stream in this state hands on while the transport hands
    /// over `inputs`: what each input causes at once, up to the first that
    /// ends the stream or to the last one, and then the stream's end events.
    pub open spec fn items(self, inputs: Seq<TransportView>) -> Seq<DsItemView>
        decreases inputs.len(),
    {
        if inputs.len() == 0 {
            as_items(self.end_events())
        } else if inputs[0].ends() {
            inputs[0].items() + as_items(self.end_events())
        } else {
            inputs[0].items() + self.after(inputs[0]).items(inputs.skip(1))
        }
    }

    /// The state in which a stream in this state ends while the transport
    /// hands over `inputs`.
    pub open spec fn end(self, inputs: Seq<TransportView>) -> DsStreamView
        decreases inputs.len(),
    {
        if inputs.len() == 0 || inputs[0].ends() {
            self
        } else {
            self.after(inputs[0]).end(inputs.skip(1))
        }
    }
}

/// What a stream gave for one input of its transport.
pub struct Step {
    /// What to hand on, in order.
    pub items: Vec<DsItem>,
    /// Whether the stream ends here.
    pub ended: bool,
}

impl DsStream {
    /// Takes what the transport hands over: gives what to hand on at once,
    /// and whether the stream ends here.
    pub fn on_transport(&mut self, input: Transport) -> (r: Step)
        ensures
            final(self)@ == old(self)@.after(input.deep_view()),
            item_views(r.items@) == input.deep_view().items(),
            r.ended == input.deep_view().ends(),
    {
        let mut items: Vec<DsItem> = Vec::new();
        match input {
            Transport::Opened => Step { items, ended: false },
            Transport::Message { data, chunk } => {
                if is_payload(data.as_str()) {
                    match chunk {
                        Some(chunk) => {
                            let ghost events = chunk.deep_view().events();
                            let emitted = self.on_chunk(chunk);
                            for event in it: emitted
                                invariant
                                    views(it.seq()) == events,
                                    item_views(items@) == as_items(
                                        events.take(it.index() as int),
                                    ),
                            {
                                proof {
                                    let i = it.index() as int;
                                    assert(as_items(events.take(i + 1)) =~= as_items(
                                        events.take(i),
                                    ).push(Ok(events[i])));
                                }
                                items.push(Ok(event));
                            }
                            proof {
                                assert(events.take(events.len() as int) =~= events);
                            }
                        },
                        None => {},
                    }
                }
                Step { items, ended: false }
            },
            Transport::Ended => Step { items, ended: true },
            Transport::Failed(text) => {
                items.push(Err(CompletionError::ResponseError(text)));
                Step { items, ended: true }
            },
        }
    }

    /// Ends the stream: gives the items with which it ends and the assistant
    /// message that it amounts to.
    pub fn finish_items(self) -> (r: (Vec<DsItem>, DsMessage))
        ensures
            item_views(r.0@) == as_items(self@.end_events()),
            r.1@ == self@.audit_message(),
    {
        let ghost events = self@.end_events();
        let (emitted, message) = self.finish();
        let mut items: Vec<DsItem> = Vec::new();
        for event in it: emitted
            invariant
                views(it.seq()) == events,
                item_views(items@) == as_items(events.take(it.index() as int)),
        {
            proof {
                let i = it.index() as int;
                assert(as_items(events.take(i + 1)) =~= as_items(events.take(i)).push(
                    Ok(events[i]),
                ));
            }
            items.push(Ok(event));
        }
        proof {
            assert(events.take(events.len() as int) =~= events);
        }
        (items, message)
    }
}

/// Reconstructs a whole streamed response from what its transport handed
/// over: gives all that the stream hands on, in order, and the assistant
/// message that it amounts to.
pub fn reconstruct(inputs: Vec<Transport>) -> (r: (Vec<DsItem>, DsMessage))
    ensures
        item_views(r.0@) == DsStreamView::start().items(inputs.deep_view()),
        r.1@ == DsStreamView::start().end(inputs.deep_view()).audit_message(),
{
    let ghost all = inputs.deep_view();
    let mut stream = DsStream::new();
    let mut items: Vec<DsItem> = Vec::new();
    let mut ended = false;
    proof {
        assert(all.skip(0) =~= all);
        assert(item_views(items@) + stream@.items(all) =~= stream@.items(all));
    }
    for input in it: inputs
        invariant
            views(it.seq()) == all,
            !ended ==> item_views(items@) + stream@.items(all.skip(it.index() as int))
                == DsStreamView::start().items(all),
            !ended ==> stream@.end(all.skip(it.index() as int)) == DsStreamView::start().end(all),
            ended ==> item_views(items@) + as_items(stream@.end_events())
                == DsStreamView::start().items(all),
            ended ==> stream@ == DsStreamView::start().end(all),
    {
        if !ended {
            let ghost rest = all.skip(it.index() as int);
            let ghost before = item_views(items@);
            proof {
                assert(rest[0] == all[it.index() as int]);
                assert(rest.skip(1) =~= all.skip(it.index() + 1));
            }
            let mut step = stream.on_transport(input);
            items.append(&mut step.items);
            ended = step.ended;
            proof {
                let now = rest[0].items();
                if ended {
                    assert((before + now) + as_items(stream@.end_events()) =~= before + (now
                        + as_items(stream@.end_events())));
                } else {
                    assert((before + now) + stream@.items(rest.skip(1)) =~= before + (now
                        + stream@.items(rest.skip(1))));
                }
            }
        }
    }
    proof {
        assert(all.skip(all.len() as int) =~= Seq::<TransportView>::empty());
    }
    let (mut last, message) = stream.finish_items();
    items.append(&mut last);
    (items, message)
}

/// The chunk that carries one fragment of a tool call and nothing else.
pub open spec fn fragment_chunk(fragment: StreamingToolCallView) -> StreamingCompletionChunkView {
    StreamingCompletionChunkView {
        choices: seq![
            StreamingDeltaView {
                content: None,
                tool_calls: seq![fragment],
                reasoning_content: None,
            },
        ],
        usage: None,
    }
}

/// The message of the transport that carries the well-formed chunk `chunk`.
pub open spec fn chunk_message(data: Seq<char>, chunk: StreamingCompletionChunkView) -> TransportView {
    TransportView::Message { data, chunk: Some(chunk) }
}

/// What a single fragment does to the open tool calls.
pub proof fn lemma_buffers_after_one(buffers: Buffers, fragment: StreamingToolCallView)
    ensures
        buffers_after(buffers, seq![fragment]) == buffers_after_fragment(buffers, fragment),
{
    assert(seq![fragment].drop_last() =~= Seq::<StreamingToolCallView>::empty());
    assert(buffers_after(buffers, Seq::<StreamingToolCallView>::empty()) == buffers);
}

/// The events of a single fragment.
pub proof fn lemma_events_of_one(fragment: StreamingToolCallView)
    ensures
        filter_map(seq![fragment], StreamingToolCallView::event_fn()) == match fragment.event() {
            Some(event) => seq![event],
            None => Seq::<DsEventView>::empty(),
        },
{
    let f = StreamingToolCallView::event_fn();
    assert(seq![fragment].drop_last() =~= Seq::<StreamingToolCallView>::empty());
    assert(filter_map(Seq::<StreamingToolCallView>::empty(), f) =~= Seq::<DsEventView>::empty());
    match fragment.event() {
        Some(event) => {
            assert(filter_map(seq![fragment], f) =~= seq![event]);
        },
        None => {},
    }
}

/// A continuation without a start is dropped, and the stream goes on: a
/// stream to which a chunk brings nothing but a continuation for an index
/// under which no tool call is open hands on exactly what it would have
/// handed on without that chunk, whatever comes later.
pub proof fn law_orphan_continuation_is_dropped(
    state: DsStreamView,
    data: Seq<char>,
    orphan: StreamingToolCallView,
    later: Seq<TransportView>,
)
    requires
        orphan.kind() == FragmentKind::Continuation,
        !state.buffers.contains_key(orphan.index),
    ensures
        buffers_after_fragment(state.buffers, orphan) == state.buffers,
        orphan.event() is None,
        state.after(chunk_message(data, fragment_chunk(orphan))) == state,
        state.items(seq![chunk_message(data, fragment_chunk(orphan))] + later) == state.items(
            later,
        ),
{
    let input = chunk_message(data, fragment_chunk(orphan));
    let inputs = seq![input] + later;
    lemma_buffers_after_one(state.buffers, orphan);
    lemma_events_of_one(orphan);
    assert(inputs[0] == input);
    assert(inputs.skip(1) =~= later);
    assert(!input.ends());
    if payload(data) {
        assert(input.chunk() == Some(fragment_chunk(orphan)));
        assert(fragment_chunk(orphan).events() =~= Seq::<DsEventView>::empty());
        assert(as_items(Seq::<DsEventView>::empty()) =~= Seq::<DsItemView>::empty());
    }
    assert(input.items() =~= Seq::<DsItemView>::empty());
    assert(state.after(input) == state);
    assert(input.items() + state.items(later) =~= state.items(later));
}

/// What a stream that has one open tool call, and no other, flushes.
pub proof fn lemma_flushed_single(index: usize, buffer: ToolCallBufferView)
    ensures
        flushed_from(Map::<usize, ToolCallBufferView>::empty().insert(index, buffer), 0)
            == flushed_call(index, buffer),
{
    let buffers = Map::<usize, ToolCallBufferView>::empty().insert(index, buffer);
    assert(is_least_from(buffers, 0, index));
    lemma_least_from_unique(buffers, 0, index);
    lemma_flushed_from_none(buffers, index + 1);
    assert(flushed_call(index, buffer) + Seq::<DsToolCallView>::empty() =~= flushed_call(
        index,
        buffer,
    ));
}

/// Fragment reconstruction: a start followed by two continuations for its
/// index, each in a chunk of its own, and then the end of the stream give
/// exactly one tool call, with the start's id and name and the arguments
/// that the two continuations spell out together, and then the final
/// response.
pub proof fn law_fragments_are_put_together(
    data: Seq<char>,
    index: usize,
    id: Option<Seq<char>>,
    name: Seq<char>,
    first: Seq<char>,
    second: Seq<char>,
    arguments: serde_json::Value,
)
    requires
        payload(data),
        name.len() > 0,
        first.len() > 0,
        second.len() > 0,
        json_value_of(first + second) == Some(arguments),
    ensures
        ({
            let start = StreamingToolCallView {
                index,
                id,
                name: Some(name),
                arguments: Seq::empty(),
            };
            let more = StreamingToolCallView { index, id: None, name: None, arguments: first };
            let last = StreamingToolCallView { index, id: None, name: None, arguments: second };
            let inputs = seq![
                chunk_message(data, fragment_chunk(start)),
                chunk_message(data, fragment_chunk(more)),
                chunk_message(data, fragment_chunk(last)),
                TransportView::Ended,
            ];
            DsStreamView::start().items(inputs) == seq![
                Ok::<DsEventView, CompletionErrorView>(
                    StreamingEventView::ToolCall {
                        id: start.call_id(),
                        name,
                        arguments,
                        call_id: None,
                    },
                ),
                Ok::<DsEventView, CompletionErrorView>(
                    StreamingEventView::FinalResponse(
                        DsStreamingCompletionResponse { usage: DsUsage::zero() },
                    ),
                ),
            ]
        }),
{
    let start = StreamingToolCallView { index, id, name: Some(name), arguments: Seq::empty() };
    let more = StreamingToolCallView { index, id: None, name: None, arguments: first };
    let last = StreamingToolCallView { index, id: None, name: None, arguments: second };
    let i0 = chunk_message(data, fragment_chunk(start));
    let i1 = chunk_message(data, fragment_chunk(more));
    let i2 = chunk_message(data, fragment_chunk(last));
    let inputs = seq![i0, i1, i2, TransportView::Ended];
    let none = Seq::<DsItemView>::empty();
    let s0 = DsStreamView::start();
    let empty = Map::<usize, ToolCallBufferView>::empty();
    let b1 = ToolCallBufferView { id: start.call_id(), name, arguments: Seq::empty() };
    let b2 = ToolCallBufferView { id: start.call_id(), name, arguments: first };
    let b3 = ToolCallBufferView { id: start.call_id(), name, arguments: first + second };

    lemma_buffers_after_one(s0.buffers, start);
    lemma_events_of_one(start);
    let s1 = s0.after(i0);
    assert(s1.buffers =~= empty.insert(index, b1));
    assert(s1.text =~= Seq::<char>::empty());
    assert(fragment_chunk(start).events() =~= Seq::<DsEventView>::empty());

    lemma_buffers_after_one(s1.buffers, more);
    lemma_events_of_one(more);
    let s2 = s1.after(i1);
    assert(Seq::<char>::empty() + first =~= first);
    assert(s2.buffers =~= empty.insert(index, b2));
    assert(fragment_chunk(more).events() =~= Seq::<DsEventView>::empty());

    lemma_buffers_after_one(s2.buffers, last);
    lemma_events_of_one(last);
    let s3 = s2.after(i2);
    assert(s3.buffers =~= empty.insert(index, b3));
    assert(fragment_chunk(last).events() =~= Seq::<DsEventView>::empty());
    assert(s3.usage == DsUsage::zero());

    assert(as_items(Seq::<DsEventView>::empty()) =~= none);
    assert(i0.items() =~= none);
    assert(i1.items() =~= none);
    assert(i2.items() =~= none);

    lemma_flushed_single(index, b3);
    let end = as_items(s3.end_events());
    assert(end =~= seq![
        Ok::<DsEventView, CompletionErrorView>(
            StreamingEventView::ToolCall { id: start.call_id(), name, arguments, call_id: None },
        ),
        Ok::<DsEventView, CompletionErrorView>(
            StreamingEventView::FinalResponse(
                DsStreamingCompletionResponse { usage: DsUsage::zero() },
            ),
        ),
    ]);

    let r3 = inputs.skip(1).skip(1).skip(1);
    assert(r3 =~= seq![TransportView::Ended]);
    assert(r3[0].ends());
    assert(r3[0].items() =~= none);
    assert(s3.items(r3) =~= end);
    let r2 = inputs.skip(1).skip(1);
    assert(r2[0] == i2);
    assert(s2.items(r2) =~= end);
    let r1 = inputs.skip(1);
    assert(r1[0] == i1);
    assert(s1.items(r1) =~= end);
    assert(inputs[0] == i0);
    assert(s0.items(inputs) =~= end);
}

/// Streamed and whole answers agree: a stream of one chunk that carries a
/// piece of text that is not blank and one whole tool call, followed by the
/// end of the stream, adds up to the very message that the whole response
/// with that text and that tool call decodes to.
pub proof fn law_streamed_matches_whole(
    data: Seq<char>,
    text: Seq<char>,
    index: usize,
    id: Seq<char>,
    name: Seq<char>,
    arguments_text: Seq<char>,
    arguments: serde_json::Value,
    usage: DsUsage,
    finish_reason: Seq<char>,
)
    requires
        payload(data),
        !blank(text),
        name.len() > 0,
        arguments_text.len() > 0,
        json_value_of(arguments_text) == Some(arguments),
    ensures
        ({
            let fragment = StreamingToolCallView {
                index,
                id: Some(id),
                name: Some(name),
                arguments: arguments_text,
            };
            let chunk = StreamingCompletionChunkView {
                choices: seq![
                    StreamingDeltaView {
                        content: Some(text),
                        tool_calls: seq![fragment],
                        reasoning_content: None,
                    },
                ],
                usage: Some(usage),
            };
            let items = DsStreamView::start().items(
                seq![chunk_message(data, chunk), TransportView::Ended],
            );
            let whole = crate::deepseek::rsp_req::DsCompletionResponseView {
                choices: seq![
                    crate::deepseek::rsp_req::ChoiceView {
                        index: 0,
                        message: DsMessageView::Assistant {
                            content: text,
                            name: None,
                            tool_calls: seq![
                                DsToolCallView {
                                    id,
                                    index,
                                    kind: DsToolType::Function,
                                    function: DsFunctionView { name, arguments },
                                },
                            ],
                        },
                        logprobs: None,
                        finish_reason,
                    },
                ],
                usage,
            };
            let streamed = crate::streaming::AggregateView::<
                DsStreamingCompletionResponse,
            >::start().after_all(items);
            &&& whole.decoded() == Ok::<_, CompletionErrorView>(streamed.choice())
            &&& streamed.response == Some(DsStreamingCompletionResponse { usage })
        }),
{
    let fragment = StreamingToolCallView {
        index,
        id: Some(id),
        name: Some(name),
        arguments: arguments_text,
    };
    let chunk = StreamingCompletionChunkView {
        choices: seq![
            StreamingDeltaView {
                content: Some(text),
                tool_calls: seq![fragment],
                reasoning_content: None,
            },
        ],
        usage: Some(usage),
    };
    let input = chunk_message(data, chunk);
    let inputs = seq![input, TransportView::Ended];
    let s0 = DsStreamView::start();
    let call_event: DsEventView = StreamingEventView::ToolCall {
        id,
        name,
        arguments,
        call_id: None,
    };
    let text_event: DsEventView = StreamingEventView::Message(text);
    let final_event: DsEventView = StreamingEventView::FinalResponse(
        DsStreamingCompletionResponse { usage },
    );

    assert(blank(Seq::<char>::empty()));
    assert(text.len() > 0);
    lemma_events_of_one(fragment);
    lemma_buffers_after_one(s0.buffers, fragment);
    assert(fragment.kind() == FragmentKind::Complete);
    assert(chunk.events() =~= seq![call_event, text_event]);
    let s1 = s0.after(input);
    assert(s1.buffers =~= Map::<usize, ToolCallBufferView>::empty());
    lemma_flushed_from_none(s1.buffers, 0);
    assert(s1.end_events() =~= seq![final_event]);
    let rest = inputs.skip(1);
    assert(rest =~= seq![TransportView::Ended]);
    assert(rest[0].items() =~= Seq::<DsItemView>::empty());
    assert(s1.items(rest) =~= as_items(seq![final_event]));
    let items = s0.items(inputs);
    let expected = seq![
        Ok::<DsEventView, CompletionErrorView>(call_event),
        Ok::<DsEventView, CompletionErrorView>(text_event),
        Ok::<DsEventView, CompletionErrorView>(final_event),
    ];
    assert(input.items() =~= as_items(seq![call_event, text_event]));
    assert(items =~= expected);

    let a0 = crate::streaming::AggregateView::<DsStreamingCompletionResponse>::start();
    crate::streaming::lemma_after_all_step(a0, expected, 0);
    crate::streaming::lemma_after_all_step(a0, expected, 1);
    crate::streaming::lemma_after_all_step(a0, expected, 2);
    assert(expected.take(0) =~= Seq::<DsItemView>::empty());
    assert(expected.take(3) =~= expected);
    assert(a0.after_all(expected.take(0)) == a0);
    let a1 = a0.after_all(expected.take(1));
    assert(a1 == a0.after(expected[0]));
    let a2 = a0.after_all(expected.take(2));
    assert(a2 == a1.after(expected[1]));
    let a3 = a0.after_all(expected);
    assert(a3 == a2.after(expected[2]));
    assert(a3.text =~= text);
    let unified = crate::message::ToolCallView {
        id,
        call_id: None,
        function: crate::message::ToolFunctionView { name, arguments },
    };
    assert(a3.tool_calls =~= seq![unified]);
    assert(a3.choice() =~= seq![
        crate::message::AssistantContentView::Text(text),
        crate::message::AssistantContentView::ToolCall(unified),
    ]);
    let whole_calls = seq![
        DsToolCallView {
            id,
            index,
            kind: DsToolType::Function,
            function: DsFunctionView { name, arguments },
        },
    ];
    let decoded_calls = whole_calls.map_values(
        crate::deepseek::rsp_req::DsCompletionResponseView::call_part(),
    );
    assert(decoded_calls =~= seq![crate::message::AssistantContentView::ToolCall(unified)]);
    assert(seq![crate::message::AssistantContentView::Text(text)] + decoded_calls =~= a3.choice());
}

} // verus!
