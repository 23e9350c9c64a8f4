//! Messages in Ollama's wire format, and the conversions between them and
//! the unified messages.

use vstd::prelude::*;
use crate::message::{
    AssistantContent, AssistantContentView, DocumentSourceKind, Message, MessageError,
    MessageView, ReasoningView, ToolCall, ToolResult, ToolResultContent, ToolResultContentView,
    ToolResultView, UserContent, UserContentView,
};
use crate::ollama::tool::{OlToolCall, OlToolCallView};
use crate::one_or_many::OneOrMany;
use crate::text::{join, joined};
use crate::views::{filter_map, group_views, lemma_filter_map_step, views};

verus! {

broadcast use group_views;

/// One message of an Ollama conversation.
#[allow(inconsistent_fields)]
#[derive(Clone, Debug, PartialEq)]
pub enum OlMessage {
    User { content: String, images: Option<Vec<String>>, name: Option<String> },
    Assistant {
        content: String,
        thinking: Option<String>,
        images: Option<Vec<String>>,
        name: Option<String>,
        tool_calls: Vec<OlToolCall>,
    },
    System { content: String, images: Option<Vec<String>>, name: Option<String> },
    ToolResult { name: String, content: String },
}

/// The model of `OlMessage`: its mathematical view.
#[allow(inconsistent_fields)]
pub enum OlMessageView {
    User { content: Seq<char>, images: Option<Seq<Seq<char>>>, name: Option<Seq<char>> },
    Assistant {
        content: Seq<char>,
        thinking: Option<Seq<char>>,
        images: Option<Seq<Seq<char>>>,
        name: Option<Seq<char>>,
        tool_calls: Seq<OlToolCallView>,
    },
    System { content: Seq<char>, images: Option<Seq<Seq<char>>>, name: Option<Seq<char>> },
    ToolResult { name: Seq<char>, content: Seq<char> },
}

impl View for OlMessage {
    type V = OlMessageView;

    open spec fn view(&self) -> OlMessageView {
        match self {
            OlMessage::User { content, images, name } => OlMessageView::User {
                content: content@,
                images: images.deep_view(),
                name: name.deep_view(),
            },
            OlMessage::Assistant { content, thinking, images, name, tool_calls } => {
                OlMessageView::Assistant {
                    content: content@,
                    thinking: thinking.deep_view(),
                    images: images.deep_view(),
                    name: name.deep_view(),
                    tool_calls: tool_calls.deep_view(),
                }
            },
            OlMessage::System { content, images, name } => OlMessageView::System {
                content: content@,
                images: images.deep_view(),
                name: name.deep_view(),
            },
            OlMessage::ToolResult { name, content } => OlMessageView::ToolResult {
                name: name@,
                content: content@,
            },
        }
    }
}

impl DeepView for OlMessage {
    type V = OlMessageView;

    open spec fn deep_view(&self) -> OlMessageView {
        self@
    }
}

impl OlMessageView {
    /// The text of one part of a tool result: a placeholder where the part
    /// is no text.
    pub open spec fn result_text() -> spec_fn(ToolResultContentView) -> Seq<char> {
        |part: ToolResultContentView|
            match part {
                ToolResultContentView::Text(text) => text,
                _ => "[Non-text content]"@,
            }
    }

    /// The wire message for the result of a tool call: the texts of its
    /// parts, one on each line.
    pub open spec fn of_tool_result(result: ToolResultView) -> OlMessageView {
        OlMessageView::ToolResult {
            name: result.id,
            content: joined(result.content.map_values(Self::result_text()), "\n"@),
        }
    }

    /// The tool-result message for a part of a user message, if the part is
    /// a tool result.
    pub open spec fn tool_result_part() -> spec_fn(UserContentView) -> Option<OlMessageView> {
        |part: UserContentView|
            match part {
                UserContentView::ToolResult(result) => Some(OlMessageView::of_tool_result(result)),
                _ => None,
            }
    }

    /// The text of a part of a user message, if the part is a text or a
    /// document with inline text.
    pub open spec fn user_text_part() -> spec_fn(UserContentView) -> Option<Seq<char>> {
        |part: UserContentView|
            match part {
                UserContentView::Text(text) => Some(text),
                UserContentView::Document(document) => document.data.inline_text(),
                _ => None,
            }
    }

    /// The text of a part of an assistant message, if the part is a text.
    pub open spec fn assistant_text_part() -> spec_fn(AssistantContentView) -> Option<Seq<char>> {
        |part: AssistantContentView|
            match part {
                AssistantContentView::Text(text) => Some(text),
                _ => None,
            }
    }

    /// The wire tool call for a part of an assistant message, if the part is
    /// a tool call.
    pub open spec fn tool_call_part() -> spec_fn(AssistantContentView) -> Option<OlToolCallView> {
        |part: AssistantContentView|
            match part {
                AssistantContentView::ToolCall(call) => Some(OlToolCallView::of(call)),
                _ => None,
            }
    }

    /// The thinking that a reasoning trace stands for: its first piece,
    /// empty where it has none.
    pub open spec fn thinking_of(reasoning: ReasoningView) -> Seq<char> {
        if reasoning.reasoning.len() > 0 {
            reasoning.reasoning[0]
        } else {
            Seq::empty()
        }
    }

    /// The thinking of an assistant message: that of its last reasoning
    /// trace, if it has one.
    pub open spec fn thinking(content: Seq<AssistantContentView>) -> Option<Seq<char>>
        decreases content.len(),
    {
        if content.len() == 0 {
            None
        } else {
            match content.last() {
                AssistantContentView::Reasoning(reasoning) => Some(Self::thinking_of(reasoning)),
                _ => Self::thinking(content.drop_last()),
            }
        }
    }

    /// The wire messages for one message of the unified model.
    ///
    /// A user message that holds tool results gives one message for each of
    /// them and nothing else; one without gives a single user message, its
    /// texts and inline documents joined by spaces. An assistant message
    /// gives a single message: its texts joined by spaces, the thinking of
    /// its last reasoning trace, and its tool calls.
    pub open spec fn encoded(message: MessageView) -> Seq<OlMessageView> {
        match message {
            MessageView::User { content } => {
                let results = filter_map(content, Self::tool_result_part());
                if results.len() > 0 {
                    results
                } else {
                    seq![
                        OlMessageView::User {
                            content: joined(filter_map(content, Self::user_text_part()), " "@),
                            images: None,
                            name: None,
                        },
                    ]
                }
            },
            MessageView::Assistant { content, .. } => seq![
                OlMessageView::Assistant {
                    content: joined(filter_map(content, Self::assistant_text_part()), " "@),
                    thinking: Self::thinking(content),
                    images: None,
                    name: None,
                    tool_calls: filter_map(content, Self::tool_call_part()),
                },
            ],
        }
    }

    /// The message of the unified model that a wire message stands for.
    ///
    /// A system message stands for a user message, since the unified model
    /// has no system messages; a tool result for a user message that holds
    /// it. An assistant message keeps its text, even where it is empty, and
    /// its tool calls after it.
    pub open spec fn decoded(self) -> MessageView {
        match self {
            OlMessageView::User { content, .. } => MessageView::User {
                content: seq![UserContentView::Text(content)],
            },
            OlMessageView::Assistant { content, tool_calls, .. } => MessageView::Assistant {
                id: None,
                content: seq![AssistantContentView::Text(content)] + tool_calls.map_values(
                    Self::decoded_call(),
                ),
            },
            OlMessageView::System { content, .. } => MessageView::User {
                content: seq![UserContentView::Text(content)],
            },
            OlMessageView::ToolResult { name, content } => MessageView::User {
                content: seq![
                    UserContentView::ToolResult(
                        ToolResultView {
                            id: name,
                            call_id: None,
                            content: seq![ToolResultContentView::Text(content)],
                        },
                    ),
                ],
            },
        }
    }

    /// A wire tool call as a part of an assistant message.
    pub open spec fn decoded_call() -> spec_fn(OlToolCallView) -> AssistantContentView {
        |call: OlToolCallView| AssistantContentView::ToolCall(call.decoded())
    }
}

/// What one more part adds to the thinking of an assistant message.
pub proof fn lemma_thinking_step(content: Seq<AssistantContentView>, i: int)
    requires
        0 <= i < content.len(),
    ensures
        OlMessageView::thinking(content.take(i + 1)) == match content[i] {
            AssistantContentView::Reasoning(reasoning) => Some(
                OlMessageView::thinking_of(reasoning),
            ),
            _ => OlMessageView::thinking(content.take(i)),
        },
{
    assert(content.take(i + 1).drop_last() =~= content.take(i));
}

impl OlMessage {
    /// A system message.
    pub fn system(content: &str) -> (r: OlMessage)
        ensures
            r@ == (OlMessageView::System { content: content@, images: None, name: None }),
    {
        OlMessage::System { content: content.to_owned(), images: None, name: None }
    }

    /// The wire message for the result of a tool call.
    pub fn from_tool_result(result: ToolResult) -> (r: OlMessage)
        ensures
            r@ == OlMessageView::of_tool_result(result@),
    {
        let ToolResult { id, call_id: _, content } = result;
        let parts = content.into_vec();
        let ghost all = views(parts@);
        let mut texts: Vec<String> = Vec::new();
        for part in it: parts
            invariant
                views(it.seq()) == all,
                texts.deep_view() == all.take(it.index() as int).map_values(
                    OlMessageView::result_text(),
                ),
        {
            proof {
                let i = it.index() as int;
                let f = OlMessageView::result_text();
                assert(all.take(i + 1).map_values(f) =~= all.take(i).map_values(f).push(
                    f(all[i]),
                ));
            }
            match part {
                ToolResultContent::Text(text) => {
                    texts.push(text);
                },
                _ => {
                    texts.push("[Non-text content]".to_owned());
                },
            }
        }
        proof {
            assert(all.take(all.len() as int) =~= all);
        }
        OlMessage::ToolResult { name: id, content: join(&texts, "\n") }
    }
}

/// A message of the unified model on its way into Ollama's format.
pub struct RigMessage(pub Message);

impl RigMessage {
    /// The wire messages for the message. Every message has them.
    pub fn try_into(self) -> (r: Result<Vec<OlMessage>, MessageError>)
        ensures
            r is Ok,
            r->Ok_0.deep_view() == OlMessageView::encoded(self.0@),
    {
        match self.0 {
            Message::User { content } => {
                let parts = content.into_vec();
                let ghost all = views(parts@);
                let mut results: Vec<OlMessage> = Vec::new();
                let mut texts: Vec<String> = Vec::new();
                for part in it: parts
                    invariant
                        views(it.seq()) == all,
                        results.deep_view() == filter_map(
                            all.take(it.index() as int),
                            OlMessageView::tool_result_part(),
                        ),
                        texts.deep_view() == filter_map(
                            all.take(it.index() as int),
                            OlMessageView::user_text_part(),
                        ),
                {
                    proof {
                        let i = it.index() as int;
                        lemma_filter_map_step(all, OlMessageView::tool_result_part(), i);
                        lemma_filter_map_step(all, OlMessageView::user_text_part(), i);
                    }
                    match part {
                        UserContent::ToolResult(result) => {
                            results.push(OlMessage::from_tool_result(result));
                        },
                        UserContent::Text(text) => {
                            texts.push(text);
                        },
                        UserContent::Document(document) => match document.data {
                            DocumentSourceKind::Base64(data) => {
                                texts.push(data);
                            },
                            DocumentSourceKind::Text(data) => {
                                texts.push(data);
                            },
                            _ => {},
                        },
                    }
                }
                proof {
                    assert(all.take(all.len() as int) =~= all);
                }
                if results.len() > 0 {
                    Ok(results)
                } else {
                    let mut messages: Vec<OlMessage> = Vec::new();
                    messages.push(
                        OlMessage::User { content: join(&texts, " "), images: None, name: None },
                    );
                    Ok(messages)
                }
            },
            Message::Assistant { id: _, content } => {
                let parts = content.into_vec();
                let ghost all = views(parts@);
                let mut thinking: Option<String> = None;
                let mut texts: Vec<String> = Vec::new();
                let mut tool_calls: Vec<OlToolCall> = Vec::new();
                for part in it: parts
                    invariant
                        views(it.seq()) == all,
                        texts.deep_view() == filter_map(
                            all.take(it.index() as int),
                            OlMessageView::assistant_text_part(),
                        ),
                        tool_calls.deep_view() == filter_map(
                            all.take(it.index() as int),
                            OlMessageView::tool_call_part(),
                        ),
                        thinking.deep_view() == OlMessageView::thinking(
                            all.take(it.index() as int),
                        ),
                {
                    proof {
                        let i = it.index() as int;
                        lemma_filter_map_step(all, OlMessageView::assistant_text_part(), i);
                        lemma_filter_map_step(all, OlMessageView::tool_call_part(), i);
                        lemma_thinking_step(all, i);
                    }
                    match part {
                        AssistantContent::Text(text) => {
                            texts.push(text);
                        },
                        AssistantContent::ToolCall(call) => {
                            tool_calls.push(OlToolCall::from(call));
                        },
                        AssistantContent::Reasoning(reasoning) => {
                            let mut pieces = reasoning.reasoning;
                            if pieces.len() > 0 {
                                thinking = Some(pieces.swap_remove(0));
                            } else {
                                thinking = Some(String::new());
                            }
                        },
                    }
                }
                proof {
                    assert(all.take(all.len() as int) =~= all);
                }
                let mut messages: Vec<OlMessage> = Vec::new();
                messages.push(
                    OlMessage::Assistant {
                        content: join(&texts, " "),
                        thinking,
                        images: None,
                        name: None,
                        tool_calls,
                    },
                );
                Ok(messages)
            },
        }
    }
}

impl Message {
    /// The message of the unified model that a wire message stands for.
    pub fn from(msg: OlMessage) -> (r: Message)
        ensures
            r@ == msg@.decoded(),
    {
        match msg {
            OlMessage::User { content, images: _, name: _ } => Message::User {
                content: OneOrMany::one(UserContent::Text(content)),
            },
            OlMessage::Assistant { content, thinking: _, images: _, name: _, tool_calls } => {
                let ghost calls = views(tool_calls@);
                let mut parts = OneOrMany::one(AssistantContent::Text(content));
                let ghost head = parts.deep_view();
                for call in it: tool_calls
                    invariant
                        views(it.seq()) == calls,
                        parts.deep_view() == head + calls.take(it.index() as int).map_values(
                            OlMessageView::decoded_call(),
                        ),
                {
                    proof {
                        let i = it.index() as int;
                        let f = OlMessageView::decoded_call();
                        assert(calls.take(i + 1).map_values(f) =~= calls.take(i).map_values(
                            f,
                        ).push(f(calls[i])));
                        assert(head + calls.take(i).map_values(f).push(f(calls[i])) =~= (head
                            + calls.take(i).map_values(f)).push(f(calls[i])));
                    }
                    let OlToolCall { kind: _, function } = call;
                    parts.push(
                        AssistantContent::ToolCall(
                            ToolCall {
                                id: function.name.clone(),
                                call_id: None,
                                function: crate::message::ToolFunction {
                                    name: function.name,
                                    arguments: function.arguments,
                                },
                            },
                        ),
                    );
                }
                proof {
                    assert(calls.take(calls.len() as int) =~= calls);
                }
                Message::Assistant { id: None, content: parts }
            },
            OlMessage::System { content, images: _, name: _ } => Message::User {
                content: OneOrMany::one(UserContent::Text(content)),
            },
            OlMessage::ToolResult { name, content } => Message::User {
                content: OneOrMany::one(
                    UserContent::ToolResult(
                        ToolResult {
                            id: name,
                            call_id: None,
                            content: OneOrMany::one(ToolResultContent::Text(content)),
                        },
                    ),
                ),
            },
        }
    }
}

} // verus!
