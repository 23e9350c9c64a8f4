//! Messages in DeepSeek's wire format, and the encoding of the unified
//! messages into them.

use vstd::prelude::*;
use crate::deepseek::tool::{DsToolCall, DsToolCallView};
use crate::message::{
    AssistantContent, AssistantContentView, Message, MessageError, MessageView, ToolResult,
    ToolResultContent, ToolResultContentView, ToolResultView, UserContent, UserContentView,
    DocumentSourceKind,
};
use crate::views::{filter_map, group_views, lemma_filter_map_step, views};

verus! {

broadcast use group_views;

/// One message of a DeepSeek conversation.
#[derive(Clone, Debug, PartialEq)]
pub enum DsMessage {
    System { content: String, name: Option<String> },
    User { content: String, name: Option<String> },
    Assistant { content: String, name: Option<String>, tool_calls: Vec<DsToolCall> },
    ToolResult { tool_call_id: String, content: String },
}

/// The model of `DsMessage`: its mathematical view.
pub enum DsMessageView {
    System { content: Seq<char>, name: Option<Seq<char>> },
    User { content: Seq<char>, name: Option<Seq<char>> },
    Assistant { content: Seq<char>, name: Option<Seq<char>>, tool_calls: Seq<DsToolCallView> },
    ToolResult { tool_call_id: Seq<char>, content: Seq<char> },
}

impl View for DsMessage {
    type V = DsMessageView;

    open spec fn view(&self) -> DsMessageView {
        match self {
            DsMessage::System { content, name } => DsMessageView::System {
                content: content@,
                name: name.deep_view(),
            },
            DsMessage::User { content, name } => DsMessageView::User {
                content: content@,
                name: name.deep_view(),
            },
            DsMessage::Assistant { content, name, tool_calls } => DsMessageView::Assistant {
                content: content@,
                name: name.deep_view(),
                tool_calls: tool_calls.deep_view(),
            },
            DsMessage::ToolResult { tool_call_id, content } => DsMessageView::ToolResult {
                tool_call_id: tool_call_id@,
                content: content@,
            },
        }
    }
}

impl DeepView for DsMessage {
    type V = DsMessageView;

    open spec fn deep_view(&self) -> DsMessageView {
        self@
    }
}

impl DsMessageView {
    /// The wire message for the result of a tool call: the text of the
    /// result's first part, or a placeholder where that part is an image.
    pub open spec fn of_tool_result(result: ToolResultView) -> DsMessageView {
        DsMessageView::ToolResult {
            tool_call_id: result.id,
            content: match result.content[0] {
                ToolResultContentView::Text(text) => text,
                ToolResultContentView::Image(_) => "[Image]"@,
            },
        }
    }

    /// The tool-result message for a part of a user message, if the part is
    /// a tool result.
    pub open spec fn tool_result_part() -> spec_fn(UserContentView) -> Option<DsMessageView> {
        |part: UserContentView|
            match part {
                UserContentView::ToolResult(result) => Some(DsMessageView::of_tool_result(result)),
                _ => None,
            }
    }

    /// The user message for a part of a user message, if the part is a text
    /// or a document with inline text.
    pub open spec fn text_part() -> spec_fn(UserContentView) -> Option<DsMessageView> {
        |part: UserContentView|
            match part {
                UserContentView::Text(text) => Some(
                    DsMessageView::User { content: text, name: None },
                ),
                UserContentView::Document(document) => match document.data.inline_text() {
                    Some(text) => Some(DsMessageView::User { content: text, name: None }),
                    None => None,
                },
                _ => None,
            }
    }

    /// The assistant message for a part of an assistant message, if the part
    /// is a text.
    pub open spec fn assistant_text_part() -> spec_fn(AssistantContentView) -> Option<
        DsMessageView,
    > {
        |part: AssistantContentView|
            match part {
                AssistantContentView::Text(text) => Some(
                    DsMessageView::Assistant {
                        content: text,
                        name: None,
                        tool_calls: Seq::empty(),
                    },
                ),
                _ => None,
            }
    }

    /// The wire tool call for a part of an assistant message, if the part is
    /// a tool call.
    pub open spec fn tool_call_part() -> spec_fn(AssistantContentView) -> Option<DsToolCallView> {
        |part: AssistantContentView|
            match part {
                AssistantContentView::ToolCall(call) => Some(DsToolCallView::of(call)),
                _ => None,
            }
    }

    /// The wire messages for one message of the unified model.
    ///
    /// A user message gives its tool results first, then its texts and inline
    /// documents, each as a message of its own. An assistant message gives
    /// one message for each text and then, if it holds tool calls, one
    /// message that carries them all.
    pub open spec fn encoded(message: MessageView) -> Seq<DsMessageView> {
        match message {
            MessageView::User { content } => filter_map(content, Self::tool_result_part())
                + filter_map(content, Self::text_part()),
            MessageView::Assistant { content, .. } => {
                let calls = filter_map(content, Self::tool_call_part());
                filter_map(content, Self::assistant_text_part()) + if calls.len() > 0 {
                    seq![
                        DsMessageView::Assistant {
                            content: Seq::empty(),
                            name: None,
                            tool_calls: calls,
                        },
                    ]
                } else {
                    Seq::empty()
                }
            },
        }
    }
}

impl DsMessage {
    /// A system message.
    pub fn system(content: &str) -> (r: DsMessage)
        ensures
            r@ == (DsMessageView::System { content: content@, name: None }),
    {
        DsMessage::System { content: content.to_owned(), name: None }
    }

    /// The wire message for the result of a tool call.
    pub fn from(tool_result: ToolResult) -> (r: DsMessage)
        ensures
            r@ == DsMessageView::of_tool_result(tool_result@),
    {
        let ToolResult { id, call_id: _, content } = tool_result;
        proof {
            assert(views(content.items())[0] == content.first.deep_view());
        }
        let text = match content.first {
            ToolResultContent::Text(text) => text,
            ToolResultContent::Image(_) => "[Image]".to_owned(),
        };
        DsMessage::ToolResult { tool_call_id: id, content: text }
    }
}

/// A message of the unified model on its way into DeepSeek's format.
pub struct RigMessage(pub Message);

impl RigMessage {
    /// The wire messages for the message. Every message has them.
    pub fn try_into(self) -> (r: Result<Vec<DsMessage>, MessageError>)
        ensures
            r is Ok,
            r->Ok_0.deep_view() == DsMessageView::encoded(self.0@),
    {
        match self.0 {
            Message::User { content } => {
                let parts = content.into_vec();
                let ghost all = views(parts@);
                let mut messages: Vec<DsMessage> = Vec::new();
                let mut i: usize = 0;
                while i < parts.len()
                    invariant
                        i <= parts.len(),
                        all == views(parts@),
                        messages.deep_view() == filter_map(
                            all.take(i as int),
                            DsMessageView::tool_result_part(),
                        ),
                    decreases parts.len() - i,
                {
                    proof {
                        lemma_filter_map_step(all, DsMessageView::tool_result_part(), i as int);
                    }
                    match &parts[i] {
                        UserContent::ToolResult(result) => {
                            messages.push(DsMessage::from(result.duplicate()));
                        },
                        _ => {},
                    }
                    i += 1;
                }
                proof {
                    assert(all.take(parts.len() as int) =~= all);
                }
                let ghost results = messages.deep_view();
                for part in it: parts
                    invariant
                        views(it.seq()) == all,
                        messages.deep_view() == results + filter_map(
                            all.take(it.index() as int),
                            DsMessageView::text_part(),
                        ),
                {
                    proof {
                        lemma_filter_map_step(all, DsMessageView::text_part(), it.index() as int);
                    }
                    match part {
                        UserContent::Text(text) => {
                            messages.push(DsMessage::User { content: text, name: None });
                        },
                        UserContent::Document(document) => match document.data {
                            DocumentSourceKind::Base64(data) => {
                                messages.push(DsMessage::User { content: data, name: None });
                            },
                            DocumentSourceKind::Text(data) => {
                                messages.push(DsMessage::User { content: data, name: None });
                            },
                            _ => {},
                        },
                        _ => {},
                    }
                }
                proof {
                    assert(all.take(all.len() as int) =~= all);
                }
                Ok(messages)
            },
            Message::Assistant { id: _, content } => {
                let parts = content.into_vec();
                let ghost all = views(parts@);
                let mut messages: Vec<DsMessage> = Vec::new();
                let mut tool_calls: Vec<DsToolCall> = Vec::new();
                for part in it: parts
                    invariant
                        views(it.seq()) == all,
                        messages.deep_view() == filter_map(
                            all.take(it.index() as int),
                            DsMessageView::assistant_text_part(),
                        ),
                        tool_calls.deep_view() == filter_map(
                            all.take(it.index() as int),
                            DsMessageView::tool_call_part(),
                        ),
                {
                    proof {
                        lemma_filter_map_step(
                            all,
                            DsMessageView::assistant_text_part(),
                            it.index() as int,
                        );
                        lemma_filter_map_step(
                            all,
                            DsMessageView::tool_call_part(),
                            it.index() as int,
                        );
                    }
                    match part {
                        AssistantContent::Text(text) => {
                            messages.push(
                                DsMessage::Assistant {
                                    content: text,
                                    name: None,
                                    tool_calls: Vec::new(),
                                },
                            );
                        },
                        AssistantContent::ToolCall(call) => {
                            tool_calls.push(DsToolCall::from(call));
                        },
                        _ => {},
                    }
                }
                proof {
                    assert(all.take(all.len() as int) =~= all);
                }
                if tool_calls.len() > 0 {
                    messages.push(
                        DsMessage::Assistant { content: String::new(), name: None, tool_calls },
                    );
                }
                Ok(messages)
            },
        }
    }
}

} // verus!
