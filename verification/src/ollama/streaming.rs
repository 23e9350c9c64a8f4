//! The reconstruction of Ollama's streamed responses.
//!
//! A stream arrives as chunks of bytes that hold responses, one on each
//! line. A response that is not marked done adds its text and its tool calls
//! to the answer and hands them on at once; the one marked done ends the
//! stream with its final response. A line that is no response is skipped.

use vstd::prelude::*;
use crate::completion::{CompletionError, CompletionErrorView, Usage};
use crate::ollama::message::{OlMessage, OlMessageView};
use crate::ollama::rsp_req::{count, OllamaCompletionResponse, OllamaCompletionResponseView};
use crate::ollama::tool::{OlToolCall, OlToolCallView};
use crate::streaming::{
    group_item_views, item_views, StreamItem, StreamItemView, StreamingEvent, StreamingEventView,
};
use crate::views::{group_views, views};

verus! {

broadcast use {group_views, group_item_views};

/// What an Ollama stream reports at its end.
#[derive(Clone, Debug, PartialEq)]
pub struct OllamaStreamingCompletionResponse {
    pub done_reason: Option<String>,
    pub total_duration: Option<u64>,
    pub load_duration: Option<u64>,
    /// The number of tokens of the prompt.
    pub prompt_eval_count: Option<u64>,
    pub prompt_eval_duration: Option<u64>,
    /// The number of tokens of the answer.
    pub eval_count: Option<u64>,
    pub eval_duration: Option<u64>,
}

/// The model of `OllamaStreamingCompletionResponse`: its mathematical view.
pub struct OllamaStreamingCompletionResponseView {
    pub done_reason: Option<Seq<char>>,
    pub total_duration: Option<u64>,
    pub load_duration: Option<u64>,
    pub prompt_eval_count: Option<u64>,
    pub prompt_eval_duration: Option<u64>,
    pub eval_count: Option<u64>,
    pub eval_duration: Option<u64>,
}

impl DeepView for OllamaStreamingCompletionResponse {
    type V = OllamaStreamingCompletionResponseView;

    open spec fn deep_view(&self) -> OllamaStreamingCompletionResponseView {
        OllamaStreamingCompletionResponseView {
            done_reason: self.done_reason.deep_view(),
            total_duration: self.total_duration,
            load_duration: self.load_duration,
            prompt_eval_count: self.prompt_eval_count,
            prompt_eval_duration: self.prompt_eval_duration,
            eval_count: self.eval_count,
            eval_duration: self.eval_duration,
        }
    }
}

impl OllamaStreamingCompletionResponse {
    /// The token counts in the unified form; a missing count is zero.
    pub fn token_usage(&self) -> (r: Option<Usage>)
        requires
            count(self.prompt_eval_count) + count(self.eval_count) <= u64::MAX,
        ensures
            r == Some(
                Usage {
                    input_tokens: count(self.prompt_eval_count) as u64,
                    output_tokens: count(self.eval_count) as u64,
                    total_tokens: (count(self.prompt_eval_count) + count(self.eval_count)) as u64,
                },
            ),
    {
        let input_tokens = match self.prompt_eval_count {
            Some(n) => n,
            None => 0,
        };
        let output_tokens = match self.eval_count {
            Some(n) => n,
            None => 0,
        };
        Some(Usage { input_tokens, output_tokens, total_tokens: input_tokens + output_tokens })
    }
}

/// The events of an Ollama stream.
pub type OlEvent = StreamingEvent<OllamaStreamingCompletionResponse>;

/// The model of `OlEvent`: its mathematical view.
pub type OlEventView = StreamingEventView<OllamaStreamingCompletionResponseView>;

/// The items of an Ollama stream.
pub type OlItem = StreamItem<OllamaStreamingCompletionResponse>;

/// The model of `OlItem`: its mathematical view.
pub type OlItemView = StreamItemView<OllamaStreamingCompletionResponseView>;

/// The state of a stream between two responses.
pub struct OllamaStreamView {
    /// The text that has arrived.
    pub text: Seq<char>,
    /// The tool calls that have arrived.
    pub tool_calls: Seq<OlToolCallView>,
}

/// The event that tells of a tool call. Ollama's calls have no id.
pub open spec fn call_event() -> spec_fn(OlToolCallView) -> OlEventView {
    |call: OlToolCallView|
        StreamingEventView::ToolCall {
            id: Seq::empty(),
            name: call.name,
            arguments: call.arguments,
            call_id: None,
        }
}

impl OllamaCompletionResponseView {
    /// What the stream reports at its end, taken from the response that is
    /// marked done.
    pub open spec fn summary(self) -> OllamaStreamingCompletionResponseView {
        OllamaStreamingCompletionResponseView {
            done_reason: self.done_reason,
            total_duration: self.total_duration,
            load_duration: self.load_duration,
            prompt_eval_count: self.prompt_eval_count,
            prompt_eval_duration: self.prompt_eval_duration,
            eval_count: self.eval_count,
            eval_duration: self.eval_duration,
        }
    }

    /// The events that the response causes. One that is marked done gives
    /// the final response. Another one gives, where it is an assistant
    /// message, its text unless empty and then its tool calls.
    pub open spec fn events(self) -> Seq<OlEventView> {
        if self.done {
            seq![StreamingEventView::FinalResponse(self.summary())]
        } else {
            match self.message {
                OlMessageView::Assistant { content, tool_calls, .. } => (if content.len() > 0 {
                    seq![StreamingEventView::Message(content)]
                } else {
                    Seq::empty()
                }) + tool_calls.map_values(call_event()),
                _ => Seq::empty(),
            }
        }
    }
}

impl OllamaStreamView {
    /// The state of a stream before its first response.
    pub open spec fn start() -> OllamaStreamView {
        OllamaStreamView { text: Seq::empty(), tool_calls: Seq::empty() }
    }

    /// The state after one more response: the text and the tool calls of an
    /// assistant message that is not marked done are added.
    pub open spec fn after(self, response: OllamaCompletionResponseView) -> OllamaStreamView {
        if response.done {
            self
        } else {
            match response.message {
                OlMessageView::Assistant { content, tool_calls, .. } => OllamaStreamView {
                    text: self.text + content,
                    tool_calls: self.tool_calls + tool_calls,
                },
                _ => self,
            }
        }
    }

    /// The assistant message that the stream amounts to so far, for the
    /// record.
    pub open spec fn audit_message(self) -> OlMessageView {
        OlMessageView::Assistant {
            content: self.text,
            thinking: None,
            images: None,
            name: None,
            tool_calls: self.tool_calls,
        }
    }
}

/// One line of a chunk.
#[derive(Clone, Debug, PartialEq)]
pub enum Line {
    /// The line is a response.
    Response(OllamaCompletionResponse),
    /// The line is no response, with the parser's description of why. The
    /// stream skips such a line.
    Malformed(String),
}

/// The model of `Line`: its mathematical view.
pub enum LineView {
    Response(OllamaCompletionResponseView),
    Malformed(Seq<char>),
}

impl DeepView for Line {
    type V = LineView;

    open spec fn deep_view(&self) -> LineView {
        match self {
            Line::Response(response) => LineView::Response(response@),
            Line::Malformed(text) => LineView::Malformed(text@),
        }
    }
}

/// The events `events`, each as an item of the stream.
pub open spec fn as_items(events: Seq<OlEventView>) -> Seq<OlItemView> {
    events.map_values(|event: OlEventView| Ok::<OlEventView, CompletionErrorView>(event))
}

/// What the lines of one chunk do to a stream.
pub struct ChunkOutcome {
    /// What the stream hands on, in order.
    pub items: Seq<OlItemView>,
    /// The state afterwards.
    pub state: OllamaStreamView,
    /// Whether the stream ends here.
    pub ended: bool,
}

impl OllamaStreamView {
    /// What the lines of one chunk do, taken in order. A malformed line is
    /// skipped: it gives nothing, changes nothing, and the lines after it are
    /// read. A response that is marked done gives the final response and
    /// ends the stream: nothing after it is read.
    pub open spec fn chunk(self, lines: Seq<LineView>) -> ChunkOutcome
        decreases lines.len(),
    {
        if lines.len() == 0 {
            ChunkOutcome { items: Seq::empty(), state: self, ended: false }
        } else {
            match lines[0] {
                LineView::Malformed(_) => self.chunk(lines.skip(1)),
                LineView::Response(response) => if response.done {
                    ChunkOutcome { items: as_items(response.events()), state: self, ended: true }
                } else {
                    let rest = self.after(response).chunk(lines.skip(1));
                    ChunkOutcome { items: as_items(response.events()) + rest.items, ..rest }
                },
            }
        }
    }
}

/// The state of one stream.
pub struct OllamaStream {
    text: String,
    tool_calls: Vec<OlToolCall>,
}

impl View for OllamaStream {
    type V = OllamaStreamView;

    closed spec fn view(&self) -> OllamaStreamView {
        OllamaStreamView { text: self.text@, tool_calls: self.tool_calls.deep_view() }
    }
}

/// What a stream gave for one chunk.
pub struct Step {
    /// What to hand on, in order.
    pub items: Vec<OlItem>,
    /// Whether the stream ends here.
    pub ended: bool,
}

impl OllamaStream {
    /// A stream before its first response.
    pub fn new() -> (r: OllamaStream)
        ensures
            r@ == OllamaStreamView::start(),
    {
        OllamaStream { text: String::new(), tool_calls: Vec::new() }
    }

    /// The assistant message that the stream amounts to so far.
    pub fn audit_message(&self) -> (r: OlMessage)
        ensures
            r@ == self@.audit_message(),
    {
        let mut calls: Vec<OlToolCall> = Vec::new();
        let mut i: usize = 0;
        while i < self.tool_calls.len()
            invariant
                i <= self.tool_calls.len(),
                calls.deep_view() == self.tool_calls.deep_view().take(i as int),
            decreases self.tool_calls.len() - i,
        {
            proof {
                let all = self.tool_calls.deep_view();
                assert(all.take(i + 1) =~= all.take(i as int).push(all[i as int]));
            }
            calls.push(self.tool_calls[i].duplicate());
            i += 1;
        }
        proof {
            let all = self.tool_calls.deep_view();
            assert(all.take(all.len() as int) =~= all);
        }
        OlMessage::Assistant {
            content: self.text.clone(),
            thinking: None,
            images: None,
            name: None,
            tool_calls: calls,
        }
    }

    /// Takes one response: gives the events that it causes, in order.
    pub fn on_response(&mut self, response: OllamaCompletionResponse) -> (r: Vec<OlEvent>)
        ensures
            final(self)@ == old(self)@.after(response@),
            r.deep_view() == response@.events(),
    {
        let mut events: Vec<OlEvent> = Vec::new();
        if response.done {
            events.push(
                StreamingEvent::FinalResponse(
                    OllamaStreamingCompletionResponse {
                        total_duration: response.total_duration,
                        load_duration: response.load_duration,
                        prompt_eval_count: response.prompt_eval_count,
                        prompt_eval_duration: response.prompt_eval_duration,
                        eval_count: response.eval_count,
                        eval_duration: response.eval_duration,
                        done_reason: response.done_reason,
                    },
                ),
            );
            return events;
        }
        match response.message {
            OlMessage::Assistant { content, thinking: _, images: _, name: _, tool_calls } => {
                if !content.as_str().is_empty() {
                    self.text.append(content.as_str());
                    events.push(StreamingEvent::Message(content));
                } else {
                    assert(self@.text =~= old(self)@.text + content@);
                }
                let ghost head = events.deep_view();
                let ghost calls = views(tool_calls@);
                for call in it: tool_calls
                    invariant
                        views(it.seq()) == calls,
                        self@.text == old(self)@.text + content@,
                        self@.tool_calls == old(self)@.tool_calls + calls.take(
                            it.index() as int,
                        ),
                        events.deep_view() == head + calls.take(it.index() as int).map_values(
                            call_event(),
                        ),
                {
                    proof {
                        let i = it.index() as int;
                        let f = call_event();
                        assert(calls.take(i + 1) =~= calls.take(i).push(calls[i]));
                        assert(calls.take(i + 1).map_values(f) =~= calls.take(i).map_values(
                            f,
                        ).push(f(calls[i])));
                        assert(head + calls.take(i).map_values(f).push(f(calls[i])) =~= (head
                            + calls.take(i).map_values(f)).push(f(calls[i])));
                        assert(old(self)@.tool_calls + calls.take(i).push(calls[i]) =~= (old(
                            self,
                        )@.tool_calls + calls.take(i)).push(calls[i]));
                    }
                    self.tool_calls.push(call.duplicate());
                    events.push(
                        StreamingEvent::ToolCall {
                            id: String::new(),
                            name: call.function.name,
                            arguments: call.function.arguments,
                            call_id: None,
                        },
                    );
                }
                proof {
                    assert(calls.take(calls.len() as int) =~= calls);
                }
            },
            _ => {},
        }
        events
    }

    /// Takes the lines of one chunk: gives what to hand on, in order, and
    /// whether the stream ends here.
    pub fn on_chunk(&mut self, lines: Vec<Line>) -> (r: Step)
        ensures
            item_views(r.items@) == old(self)@.chunk(lines.deep_view()).items,
            final(self)@ == old(self)@.chunk(lines.deep_view()).state,
            r.ended == old(self)@.chunk(lines.deep_view()).ended,
    {
        let ghost all = lines.deep_view();
        let ghost whole = self@.chunk(all);
        let mut items: Vec<OlItem> = Vec::new();
        let mut ended = false;
        let mut unread = true;
        proof {
            assert(all.skip(0) =~= all);
        }
        for line in it: lines
            invariant
                views(it.seq()) == all,
                whole == old(self)@.chunk(all),
                unread ==> !ended,
                !unread ==> ended,
                unread ==> whole.items == item_views(items@) + self@.chunk(
                    all.skip(it.index() as int),
                ).items,
                unread ==> whole.state == self@.chunk(all.skip(it.index() as int)).state,
                unread ==> whole.ended == self@.chunk(all.skip(it.index() as int)).ended,
                !unread ==> whole.items == item_views(items@),
                !unread ==> whole.state == self@,
                !unread ==> whole.ended == ended,
        {
            if unread {
                let ghost rest = all.skip(it.index() as int);
                let ghost before = item_views(items@);
                proof {
                    assert(rest[0] == all[it.index() as int]);
                    assert(rest.skip(1) =~= all.skip(it.index() + 1));
                }
                match line {
                    Line::Malformed(_) => {},
                    Line::Response(response) => {
                        let ghost events = response@.events();
                        let done = response.done;
                        let emitted = self.on_response(response);
                        let ghost mid = item_views(items@);
                        for event in inner: emitted
                            invariant
                                views(inner.seq()) == events,
                                item_views(items@) == mid + as_items(
                                    events.take(inner.index() as int),
                                ),
                        {
                            proof {
                                let i = inner.index() as int;
                                assert(as_items(events.take(i + 1)) =~= as_items(
                                    events.take(i),
                                ).push(Ok(events[i])));
                                assert(mid + as_items(events.take(i)).push(Ok(events[i])) =~= (mid
                                    + as_items(events.take(i))).push(Ok(events[i])));
                            }
                            items.push(Ok(event));
                        }
                        proof {
                            assert(events.take(events.len() as int) =~= events);
                        }
                        if done {
                            ended = true;
                            unread = false;
                        } else {
                            proof {
                                let tail = self@.chunk(rest.skip(1)).items;
                                assert((before + as_items(events)) + tail =~= before + (as_items(
                                    events,
                                ) + tail));
                            }
                        }
                    },
                }
            }
        }
        proof {
            assert(all.skip(all.len() as int) =~= Seq::<LineView>::empty());
            if unread {
                assert(item_views(items@) + Seq::<OlItemView>::empty() =~= item_views(items@));
            }
        }
        Step { items, ended }
    }
}

/// The byte that ends a line.
pub const NEWLINE: u8 = 10;

/// The lines of `bytes` read so far: the lines that are complete and not
/// empty, and the bytes of the line that is not yet ended.
pub open spec fn lines_read(bytes: Seq<u8>) -> (Seq<Seq<u8>>, Seq<u8>)
    decreases bytes.len(),
{
    if bytes.len() == 0 {
        (Seq::empty(), Seq::empty())
    } else {
        let (complete, current) = lines_read(bytes.drop_last());
        if bytes.last() == NEWLINE {
            if current.len() > 0 {
                (complete.push(current), Seq::empty())
            } else {
                (complete, Seq::empty())
            }
        } else {
            (complete, current.push(bytes.last()))
        }
    }
}

/// The lines of a chunk: what stands between its newlines, empty lines left
/// out.
pub open spec fn lines_of(bytes: Seq<u8>) -> Seq<Seq<u8>> {
    let (complete, current) = lines_read(bytes);
    if current.len() > 0 {
        complete.push(current)
    } else {
        complete
    }
}

/// The lines of a chunk, in order, empty lines left out.
pub fn split_lines(bytes: &[u8]) -> (r: Vec<Vec<u8>>)
    ensures
        r.deep_view() == lines_of(bytes@),
{
    let mut complete: Vec<Vec<u8>> = Vec::new();
    let mut current: Vec<u8> = Vec::new();
    let mut i: usize = 0;
    while i < bytes.len()
        invariant
            i <= bytes.len(),
            (complete.deep_view(), current@) == lines_read(bytes@.take(i as int)),
        decreases bytes.len() - i,
    {
        proof {
            assert(bytes@.take(i + 1).drop_last() =~= bytes@.take(i as int));
        }
        let byte = bytes[i];
        if byte == NEWLINE {
            if current.len() > 0 {
                let mut line: Vec<u8> = Vec::new();
                std::mem::swap(&mut line, &mut current);
                proof {
                    assert(line.deep_view() =~= line@);
                }
                complete.push(line);
            }
            assert(current@ =~= Seq::<u8>::empty());
        } else {
            current.push(byte);
        }
        i += 1;
    }
    proof {
        assert(bytes@.take(bytes@.len() as int) =~= bytes@);
        assert(current.deep_view() =~= current@);
    }
    if current.len() > 0 {
        complete.push(current);
    }
    complete
}

/// What the transport of a stream hands over, one at a time.
#[derive(Clone, Debug, PartialEq)]
pub enum Transport {
    /// A chunk arrived: its lines that are not empty, each read as a
    /// response.
    Chunk(Vec<Line>),
    /// The connection failed, with the transport's description of it.
    Failed(String),
}

/// The model of `Transport`: its mathematical view.
pub enum TransportView {
    Chunk(Seq<LineView>),
    Failed(Seq<char>),
}

impl DeepView for Transport {
    type V = TransportView;

    open spec fn deep_view(&self) -> TransportView {
        match self {
            Transport::Chunk(lines) => TransportView::Chunk(lines.deep_view()),
            Transport::Failed(text) => TransportView::Failed(text@),
        }
    }
}

impl OllamaStreamView {
    /// What the transport's handing over `input` does to the stream. A
    /// failed connection ends the stream with an error.
    pub open spec fn transport(self, input: TransportView) -> ChunkOutcome {
        match input {
            TransportView::Chunk(lines) => self.chunk(lines),
            TransportView::Failed(text) => ChunkOutcome {
                items: seq![Err::<OlEventView, _>(CompletionErrorView::ResponseError(text))],
                state: self,
                ended: true,
            },
        }
    }

    /// All that a stream in this state hands on while the transport hands
    /// over `inputs`, up to the first input that ends the stream or to the
    /// last one.
    pub open spec fn items(self, inputs: Seq<TransportView>) -> Seq<OlItemView>
        decreases inputs.len(),
    {
        if inputs.len() == 0 {
            Seq::empty()
        } else {
            let first = self.transport(inputs[0]);
            if first.ended {
                first.items
            } else {
                first.items + first.state.items(inputs.skip(1))
            }
        }
    }

    /// The state in which a stream in this state is left while the
    /// transport hands over `inputs`.
    pub open spec fn end(self, inputs: Seq<TransportView>) -> OllamaStreamView
        decreases inputs.len(),
    {
        if inputs.len() == 0 {
            self
        } else {
            let first = self.transport(inputs[0]);
            if first.ended {
                first.state
            } else {
                first.state.end(inputs.skip(1))
            }
        }
    }
}

impl OllamaStream {
    /// Takes what the transport hands over: gives what to hand on, in order,
    /// and whether the stream ends here.
    pub fn on_transport(&mut self, input: Transport) -> (r: Step)
        ensures
            item_views(r.items@) == old(self)@.transport(input.deep_view()).items,
            final(self)@ == old(self)@.transport(input.deep_view()).state,
            r.ended == old(self)@.transport(input.deep_view()).ended,
    {
        match input {
            Transport::Chunk(lines) => self.on_chunk(lines),
            Transport::Failed(text) => {
                let mut items: Vec<OlItem> = Vec::new();
                items.push(Err(CompletionError::ResponseError(text)));
                Step { items, ended: true }
            },
        }
    }
}

/// Reconstructs a whole streamed response from what its transport handed
/// over: gives all that the stream hands on, in order, and the assistant
/// message that it amounts to.
pub fn reconstruct(inputs: Vec<Transport>) -> (r: (Vec<OlItem>, OlMessage))
    ensures
        item_views(r.0@) == OllamaStreamView::start().items(inputs.deep_view()),
        r.1@ == OllamaStreamView::start().end(inputs.deep_view()).audit_message(),
{
    let ghost all = inputs.deep_view();
    let mut stream = OllamaStream::new();
    let mut items: Vec<OlItem> = Vec::new();
    let mut ended = false;
    proof {
        assert(all.skip(0) =~= all);
        assert(item_views(items@) + stream@.items(all) =~= stream@.items(all));
    }
    for input in it: inputs
        invariant
            views(it.seq()) == all,
            !ended ==> item_views(items@) + stream@.items(all.skip(it.index() as int))
                == OllamaStreamView::start().items(all),
            !ended ==> stream@.end(all.skip(it.index() as int)) == OllamaStreamView::start().end(
                all,
            ),
            ended ==> item_views(items@) == OllamaStreamView::start().items(all),
            ended ==> stream@ == OllamaStreamView::start().end(all),
    {
        if !ended {
            let ghost rest = all.skip(it.index() as int);
            let ghost before = item_views(items@);
            let ghost state = stream@;
            proof {
                assert(rest[0] == all[it.index() as int]);
                assert(rest.skip(1) =~= all.skip(it.index() + 1));
            }
            let mut step = stream.on_transport(input);
            items.append(&mut step.items);
            ended = step.ended;
            proof {
                let first = state.transport(rest[0]);
                if !ended {
                    assert((before + first.items) + stream@.items(rest.skip(1)) =~= before + (
                    first.items + stream@.items(rest.skip(1))));
                }
            }
        }
    }
    proof {
        assert(all.skip(all.len() as int) =~= Seq::<TransportView>::empty());
        if !ended {
            assert(item_views(items@) + Seq::<OlItemView>::empty() =~= item_views(items@));
        }
    }
    let message = stream.audit_message();
    (items, message)
}

/// A malformed line is skipped, and the stream goes on: wherever among the
/// lines of a chunk a line stands that is no response, the chunk does to the
/// stream exactly what it would have done without that line.
pub proof fn law_malformed_line_is_skipped(
    state: OllamaStreamView,
    before: Seq<LineView>,
    text: Seq<char>,
    after: Seq<LineView>,
)
    ensures
        state.chunk(before + seq![LineView::Malformed(text)] + after) == state.chunk(
            before + after,
        ),
    decreases before.len(),
{
    let with = before + seq![LineView::Malformed(text)] + after;
    let without = before + after;
    if before.len() == 0 {
        assert(with.skip(1) =~= after);
        assert(without =~= after);
    } else {
        assert(with[0] == before[0]);
        assert(without[0] == before[0]);
        assert(with.skip(1) =~= before.skip(1) + seq![LineView::Malformed(text)] + after);
        assert(without.skip(1) =~= before.skip(1) + after);
        match before[0] {
            LineView::Malformed(_) => {
                law_malformed_line_is_skipped(state, before.skip(1), text, after);
            },
            LineView::Response(response) => {
                if !response.done {
                    law_malformed_line_is_skipped(
                        state.after(response),
                        before.skip(1),
                        text,
                        after,
                    );
                }
            },
        }
    }
}

/// The final response comes last: the response that is marked done gives the
/// final response and ends the stream, whatever lines stand after it in its
/// chunk and whatever the transport hands over later.
pub proof fn law_final_response_is_last(
    state: OllamaStreamView,
    done: OllamaCompletionResponseView,
    after: Seq<LineView>,
    later: Seq<TransportView>,
)
    requires
        done.done,
    ensures
        ({
            let lines = seq![LineView::Response(done)] + after;
            let last = seq![
                Ok::<OlEventView, CompletionErrorView>(
                    StreamingEventView::FinalResponse(done.summary()),
                ),
            ];
            &&& state.chunk(lines) == (ChunkOutcome { items: last, state, ended: true })
            &&& state.items(seq![TransportView::Chunk(lines)] + later) == last
            &&& state.end(seq![TransportView::Chunk(lines)] + later) == state
        }),
{
    let lines = seq![LineView::Response(done)] + after;
    let last = seq![
        Ok::<OlEventView, CompletionErrorView>(StreamingEventView::FinalResponse(done.summary())),
    ];
    assert(lines[0] == LineView::Response(done));
    assert(as_items(done.events()) =~= last);
    let inputs = seq![TransportView::Chunk(lines)] + later;
    assert(inputs[0] == TransportView::Chunk(lines));
}

} // verus!
