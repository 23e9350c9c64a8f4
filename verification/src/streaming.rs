//! The uniform events of a streamed response.

use vstd::prelude::*;
use crate::completion::{CompletionError, CompletionErrorView};
use crate::message::{
    AssistantContent, AssistantContentView, ToolCall, ToolCallView, ToolFunction, ToolFunctionView,
};
use crate::one_or_many::OneOrMany;
use crate::views::{group_views, views};

verus! {

broadcast use group_views;

/// One event of a streamed response, in the order of arrival. The final
/// response comes last.
#[allow(inconsistent_fields)]
#[derive(Clone, Debug, PartialEq)]
pub enum StreamingEvent<R> {
    /// A piece of the answer's text.
    Message(String),
    /// A complete tool call.
    ToolCall { id: String, name: String, arguments: serde_json::Value, call_id: Option<String> },
    /// A piece of the model's reasoning.
    Reasoning { id: Option<String>, reasoning: String },
    /// What the provider reported at the end of the stream.
    FinalResponse(R),
}

/// The model of `StreamingEvent`: its mathematical view.
#[allow(inconsistent_fields)]
pub enum StreamingEventView<R> {
    Message(Seq<char>),
    ToolCall {
        id: Seq<char>,
        name: Seq<char>,
        arguments: serde_json::Value,
        call_id: Option<Seq<char>>,
    },
    Reasoning { id: Option<Seq<char>>, reasoning: Seq<char> },
    FinalResponse(R),
}

impl<R: DeepView> DeepView for StreamingEvent<R> {
    type V = StreamingEventView<R::V>;

    open spec fn deep_view(&self) -> StreamingEventView<R::V> {
        match self {
            StreamingEvent::Message(text) => StreamingEventView::Message(text@),
            StreamingEvent::ToolCall { id, name, arguments, call_id } => {
                StreamingEventView::ToolCall {
                    id: id@,
                    name: name@,
                    arguments: *arguments,
                    call_id: call_id.deep_view(),
                }
            },
            StreamingEvent::Reasoning { id, reasoning } => StreamingEventView::Reasoning {
                id: id.deep_view(),
                reasoning: reasoning@,
            },
            StreamingEvent::FinalResponse(response) => StreamingEventView::FinalResponse(
                response.deep_view(),
            ),
        }
    }
}

/// What a stream hands to its consumer: an event, or the error that ends it.
pub type StreamItem<R> = Result<StreamingEvent<R>, CompletionError>;

/// The model of `StreamItem`: its mathematical view.
pub type StreamItemView<R> = Result<StreamingEventView<R>, CompletionErrorView>;

/// The view of one item of a stream.
pub open spec fn item_view<R: DeepView>(item: StreamItem<R>) -> StreamItemView<R::V> {
    match item {
        Ok(event) => Ok(event.deep_view()),
        Err(error) => Err(error@),
    }
}

/// The views of the items of a stream.
pub open spec fn item_views<R: DeepView>(items: Seq<StreamItem<R>>) -> Seq<StreamItemView<R::V>> {
    items.map_values(|item: StreamItem<R>| item_view(item))
}

/// The views of no items are no views.
pub broadcast proof fn lemma_item_views_empty<R: DeepView>()
    ensures
        #[trigger] item_views(Seq::<StreamItem<R>>::empty()) == Seq::<
            StreamItemView<R::V>,
        >::empty(),
{
    assert(item_views(Seq::<StreamItem<R>>::empty()) =~= Seq::<StreamItemView<R::V>>::empty());
}

/// The views of a list with one more item.
pub broadcast proof fn lemma_item_views_push<R: DeepView>(
    items: Seq<StreamItem<R>>,
    item: StreamItem<R>,
)
    ensures
        #[trigger] item_views(items.push(item)) == item_views(items).push(item_view(item)),
{
    assert(item_views(items.push(item)) =~= item_views(items).push(item_view(item)));
}

/// The views of two lists, one after the other.
pub broadcast proof fn lemma_item_views_add<R: DeepView>(
    left: Seq<StreamItem<R>>,
    right: Seq<StreamItem<R>>,
)
    ensures
        #[trigger] item_views(left + right) == item_views(left) + item_views(right),
{
    assert(item_views(left + right) =~= item_views(left) + item_views(right));
}

pub broadcast group group_item_views {
    lemma_item_views_empty,
    lemma_item_views_push,
    lemma_item_views_add,
}

/// A tool call as a part of an assistant message.
pub open spec fn tool_call_part() -> spec_fn(ToolCallView) -> AssistantContentView {
    |call: ToolCallView| AssistantContentView::ToolCall(call)
}

/// What the events of a stream add up to so far.
pub struct AggregateView<R> {
    /// The pieces of text, one after another.
    pub text: Seq<char>,
    /// The tool calls, in the order of their events.
    pub tool_calls: Seq<ToolCallView>,
    /// The final response, once it has come.
    pub response: Option<R>,
}

impl<R> AggregateView<R> {
    /// Before the first item.
    pub open spec fn start() -> Self {
        AggregateView { text: Seq::empty(), tool_calls: Seq::empty(), response: None }
    }

    /// After one more item. A piece of text is added to the text, a tool call
    /// to the tool calls, and the final response is kept; reasoning and
    /// errors add nothing.
    pub open spec fn after(self, item: StreamItemView<R>) -> Self {
        match item {
            Ok(StreamingEventView::Message(text)) => AggregateView {
                text: self.text + text,
                ..self
            },
            Ok(StreamingEventView::ToolCall { id, name, arguments, call_id }) => AggregateView {
                tool_calls: self.tool_calls.push(
                    ToolCallView { id, call_id, function: ToolFunctionView { name, arguments } },
                ),
                ..self
            },
            Ok(StreamingEventView::FinalResponse(response)) => AggregateView {
                response: Some(response),
                ..self
            },
            _ => self,
        }
    }

    /// After a list of items, taken in order.
    pub open spec fn after_all(self, items: Seq<StreamItemView<R>>) -> Self
        decreases items.len(),
    {
        if items.len() == 0 {
            self
        } else {
            self.after_all(items.drop_last()).after(items.last())
        }
    }

    /// The message that the stream amounts to: the text first, then the tool
    /// calls. The text is left out where it is empty and there is a tool
    /// call, so the message is never empty.
    pub open spec fn choice(self) -> Seq<AssistantContentView> {
        let calls = self.tool_calls.map_values(tool_call_part());
        if self.tool_calls.len() == 0 || self.text.len() > 0 {
            seq![AssistantContentView::Text(self.text)] + calls
        } else {
            calls
        }
    }
}

/// What one more item adds to `after_all`.
pub proof fn lemma_after_all_step<R>(
    start: AggregateView<R>,
    items: Seq<StreamItemView<R>>,
    i: int,
)
    requires
        0 <= i < items.len(),
    ensures
        start.after_all(items.take(i + 1)) == start.after_all(items.take(i)).after(items[i]),
{
    assert(items.take(i + 1).drop_last() =~= items.take(i));
}

/// The reconstruction of one message from the events of a stream.
pub struct StreamingCompletionResponse<R> {
    text: String,
    tool_calls: Vec<ToolCall>,
    response: Option<R>,
}

impl<R: DeepView> DeepView for StreamingCompletionResponse<R> {
    type V = AggregateView<R::V>;

    closed spec fn deep_view(&self) -> AggregateView<R::V> {
        AggregateView {
            text: self.text@,
            tool_calls: self.tool_calls.deep_view(),
            response: self.response.deep_view(),
        }
    }
}

impl<R: DeepView> StreamingCompletionResponse<R> {
    /// Before the first item.
    pub fn new() -> (r: Self)
        ensures
            r.deep_view() == AggregateView::<R::V>::start(),
    {
        StreamingCompletionResponse { text: String::new(), tool_calls: Vec::new(), response: None }
    }

    /// Takes one item of the stream.
    pub fn on_item(&mut self, item: StreamItem<R>)
        ensures
            final(self).deep_view() == old(self).deep_view().after(item_view(item)),
    {
        match item {
            Ok(StreamingEvent::Message(text)) => {
                self.text.append(text.as_str());
            },
            Ok(StreamingEvent::ToolCall { id, name, arguments, call_id }) => {
                self.tool_calls.push(
                    ToolCall { id, call_id, function: ToolFunction { name, arguments } },
                );
            },
            Ok(StreamingEvent::FinalResponse(response)) => {
                self.response = Some(response);
            },
            _ => {},
        }
    }

    /// The message that the stream amounts to, and the final response if it
    /// has come.
    pub fn finish(self) -> (r: (OneOrMany<AssistantContent>, Option<R>))
        ensures
            r.0.deep_view() == self.deep_view().choice(),
            r.1.deep_view() == self.deep_view().response,
    {
        let StreamingCompletionResponse { text, tool_calls, response } = self;
        let ghost calls = views(tool_calls@);
        let with_text = tool_calls.len() == 0 || !text.as_str().is_empty();
        let mut parts: Vec<AssistantContent> = Vec::new();
        if with_text {
            parts.push(AssistantContent::Text(text));
        }
        let ghost head = views(parts@);
        for call in it: tool_calls
            invariant
                views(it.seq()) == calls,
                views(parts@) == head + calls.take(it.index() as int).map_values(
                    tool_call_part(),
                ),
        {
            proof {
                let i = it.index() as int;
                let wrap = tool_call_part();
                assert(calls.take(i + 1).map_values(wrap) =~= calls.take(i).map_values(wrap).push(
                    wrap(calls[i]),
                ));
                assert(head + calls.take(i).map_values(wrap).push(wrap(calls[i])) =~= (head
                    + calls.take(i).map_values(wrap)).push(wrap(calls[i])));
            }
            parts.push(AssistantContent::ToolCall(call));
        }
        proof {
            assert(calls.take(calls.len() as int) =~= calls);
            assert(views(parts@) =~= self.deep_view().choice());
        }
        match OneOrMany::many(parts) {
            Ok(choice) => (choice, response),
            Err(_) => {
                proof {
                    assert(false);
                }
                (OneOrMany::one(AssistantContent::Text(String::new())), response)
            },
        }
    }
}

/// Reconstructs one message from all the items of a stream.
pub fn aggregate<R: DeepView>(items: Vec<StreamItem<R>>) -> (r: (
    OneOrMany<AssistantContent>,
    Option<R>,
))
    ensures
        r.0.deep_view() == AggregateView::<R::V>::start().after_all(item_views(items@)).choice(),
        r.1.deep_view() == AggregateView::<R::V>::start().after_all(item_views(items@)).response,
{
    let ghost all = item_views(items@);
    let mut response = StreamingCompletionResponse::new();
    for item in it: items
        invariant
            item_views(it.seq()) == all,
            response.deep_view() == AggregateView::<R::V>::start().after_all(
                all.take(it.index() as int),
            ),
    {
        proof {
            lemma_after_all_step(AggregateView::<R::V>::start(), all, it.index() as int);
        }
        response.on_item(item);
    }
    proof {
        assert(all.take(all.len() as int) =~= all);
    }
    response.finish()
}

} // verus!
