//! The provider-agnostic message model.
//!
//! Every backend encodes these messages into its own wire format and decodes
//! its responses back into them. Each type has a view, its mathematical
//! model, over which the conversions are specified.

use vstd::prelude::*;
use crate::one_or_many::OneOrMany;
use crate::views::group_views;

verus! {

broadcast use group_views;

/// The error of a message that a backend cannot encode.
#[derive(Clone, Debug, PartialEq)]
pub enum MessageError {
    ConversionError(String),
}

/// The call a tool call makes: the tool's name and its arguments.
#[derive(Clone, Debug, PartialEq)]
pub struct ToolFunction {
    pub name: String,
    pub arguments: serde_json::Value,
}

/// The model of `ToolFunction`: its mathematical view.
pub struct ToolFunctionView {
    pub name: Seq<char>,
    pub arguments: serde_json::Value,
}

impl View for ToolFunction {
    type V = ToolFunctionView;

    open spec fn view(&self) -> ToolFunctionView {
        ToolFunctionView { name: self.name@, arguments: self.arguments }
    }
}

impl DeepView for ToolFunction {
    type V = ToolFunctionView;

    open spec fn deep_view(&self) -> ToolFunctionView {
        self@
    }
}

/// A structured, named function invocation requested by the model.
#[derive(Clone, Debug, PartialEq)]
pub struct ToolCall {
    pub id: String,
    pub call_id: Option<String>,
    pub function: ToolFunction,
}

/// The model of `ToolCall`: its mathematical view.
pub struct ToolCallView {
    pub id: Seq<char>,
    pub call_id: Option<Seq<char>>,
    pub function: ToolFunctionView,
}

impl View for ToolCall {
    type V = ToolCallView;

    open spec fn view(&self) -> ToolCallView {
        ToolCallView {
            id: self.id@,
            call_id: self.call_id.deep_view(),
            function: self.function@,
        }
    }
}

impl DeepView for ToolCall {
    type V = ToolCallView;

    open spec fn deep_view(&self) -> ToolCallView {
        self@
    }
}

/// One part of what a tool gave back.
#[derive(Clone, Debug, PartialEq)]
pub enum ToolResultContent {
    Text(String),
    /// An image, as its encoded data.
    Image(String),
}

/// The model of `ToolResultContent`: its mathematical view.
pub enum ToolResultContentView {
    Text(Seq<char>),
    Image(Seq<char>),
}

impl View for ToolResultContent {
    type V = ToolResultContentView;

    open spec fn view(&self) -> ToolResultContentView {
        match self {
            ToolResultContent::Text(text) => ToolResultContentView::Text(text@),
            ToolResultContent::Image(data) => ToolResultContentView::Image(data@),
        }
    }
}

impl DeepView for ToolResultContent {
    type V = ToolResultContentView;

    open spec fn deep_view(&self) -> ToolResultContentView {
        self@
    }
}

/// The result of a tool call, handed back to the model.
#[derive(Clone, Debug, PartialEq)]
pub struct ToolResult {
    pub id: String,
    pub call_id: Option<String>,
    pub content: OneOrMany<ToolResultContent>,
}

/// The model of `ToolResult`: its mathematical view.
pub struct ToolResultView {
    pub id: Seq<char>,
    pub call_id: Option<Seq<char>>,
    /// Never empty.
    pub content: Seq<ToolResultContentView>,
}

impl View for ToolResult {
    type V = ToolResultView;

    open spec fn view(&self) -> ToolResultView {
        ToolResultView {
            id: self.id@,
            call_id: self.call_id.deep_view(),
            content: self.content.deep_view(),
        }
    }
}

impl DeepView for ToolResult {
    type V = ToolResultView;

    open spec fn deep_view(&self) -> ToolResultView {
        self@
    }
}

impl ToolResultContent {
    /// A copy of the part.
    pub fn duplicate(&self) -> (r: ToolResultContent)
        ensures
            r@ == self@,
    {
        match self {
            ToolResultContent::Text(text) => ToolResultContent::Text(text.clone()),
            ToolResultContent::Image(data) => ToolResultContent::Image(data.clone()),
        }
    }
}

impl ToolResult {
    /// A copy of the result.
    pub fn duplicate(&self) -> (r: ToolResult)
        ensures
            r@ == self@,
    {
        let id = self.id.clone();
        let call_id = match &self.call_id {
            Some(call_id) => Some(call_id.clone()),
            None => None,
        };
        let mut content = OneOrMany::one(self.content.first.duplicate());
        let mut i: usize = 0;
        while i < self.content.rest.len()
            invariant
                i <= self.content.rest.len(),
                content.deep_view() == self.content.deep_view().take(i + 1),
            decreases self.content.rest.len() - i,
        {
            let ghost whole = self.content.deep_view();
            proof {
                assert(whole.take(i + 2) =~= whole.take(i + 1).push(whole[i + 1]));
                assert(whole[i + 1] == self.content.rest[i as int]@);
            }
            content.push(self.content.rest[i].duplicate());
            i += 1;
        }
        proof {
            let whole = self.content.deep_view();
            assert(whole.take(whole.len() as int) =~= whole);
        }
        ToolResult { id, call_id, content }
    }
}

/// Where the data of a document content comes from.
#[derive(Clone, Debug, PartialEq)]
pub enum DocumentSourceKind {
    Url(String),
    Base64(String),
    Raw(Vec<u8>),
    Text(String),
    Unknown,
}

/// The model of `DocumentSourceKind`: its mathematical view.
pub enum DocumentSourceKindView {
    Url(Seq<char>),
    Base64(Seq<char>),
    Raw(Seq<u8>),
    Text(Seq<char>),
    Unknown,
}

impl View for DocumentSourceKind {
    type V = DocumentSourceKindView;

    open spec fn view(&self) -> DocumentSourceKindView {
        match self {
            DocumentSourceKind::Url(url) => DocumentSourceKindView::Url(url@),
            DocumentSourceKind::Base64(data) => DocumentSourceKindView::Base64(data@),
            DocumentSourceKind::Raw(bytes) => DocumentSourceKindView::Raw(bytes@),
            DocumentSourceKind::Text(text) => DocumentSourceKindView::Text(text@),
            DocumentSourceKind::Unknown => DocumentSourceKindView::Unknown,
        }
    }
}

impl DocumentSourceKindView {
    /// The text a provider that takes only text is given for the document:
    /// inline text and base64 data have one, the other sources have none.
    pub open spec fn inline_text(self) -> Option<Seq<char>> {
        match self {
            DocumentSourceKindView::Base64(data) => Some(data),
            DocumentSourceKindView::Text(text) => Some(text),
            _ => None,
        }
    }
}

/// The media type of a document content.
#[derive(Clone, Copy, Debug, PartialEq, Eq, Structural)]
pub enum DocumentMediaType {
    PDF,
    TXT,
    RTF,
    HTML,
    CSS,
    MARKDOWN,
    CSV,
    XML,
}

/// A document as part of a user message.
#[derive(Clone, Debug, PartialEq)]
pub struct DocumentContent {
    pub data: DocumentSourceKind,
    pub media_type: Option<DocumentMediaType>,
}

/// The model of `DocumentContent`: its mathematical view.
pub struct DocumentContentView {
    pub data: DocumentSourceKindView,
    pub media_type: Option<DocumentMediaType>,
}

impl View for DocumentContent {
    type V = DocumentContentView;

    open spec fn view(&self) -> DocumentContentView {
        DocumentContentView { data: self.data@, media_type: self.media_type }
    }
}

/// One part of a user message.
#[derive(Clone, Debug, PartialEq)]
pub enum UserContent {
    Text(String),
    Document(DocumentContent),
    ToolResult(ToolResult),
}

/// The model of `UserContent`: its mathematical view.
pub enum UserContentView {
    Text(Seq<char>),
    Document(DocumentContentView),
    ToolResult(ToolResultView),
}

impl View for UserContent {
    type V = UserContentView;

    open spec fn view(&self) -> UserContentView {
        match self {
            UserContent::Text(text) => UserContentView::Text(text@),
            UserContent::Document(document) => UserContentView::Document(document@),
            UserContent::ToolResult(result) => UserContentView::ToolResult(result@),
        }
    }
}

impl DeepView for UserContent {
    type V = UserContentView;

    open spec fn deep_view(&self) -> UserContentView {
        self@
    }
}

/// A reasoning trace of the model.
#[derive(Clone, Debug, PartialEq)]
pub struct Reasoning {
    pub id: Option<String>,
    pub reasoning: Vec<String>,
}

/// The model of `Reasoning`: its mathematical view.
pub struct ReasoningView {
    pub id: Option<Seq<char>>,
    pub reasoning: Seq<Seq<char>>,
}

impl View for Reasoning {
    type V = ReasoningView;

    open spec fn view(&self) -> ReasoningView {
        ReasoningView { id: self.id.deep_view(), reasoning: self.reasoning.deep_view() }
    }
}

/// One part of an assistant message.
#[derive(Clone, Debug, PartialEq)]
pub enum AssistantContent {
    Text(String),
    ToolCall(ToolCall),
    Reasoning(Reasoning),
}

/// The model of `AssistantContent`: its mathematical view.
pub enum AssistantContentView {
    Text(Seq<char>),
    ToolCall(ToolCallView),
    Reasoning(ReasoningView),
}

impl View for AssistantContent {
    type V = AssistantContentView;

    open spec fn view(&self) -> AssistantContentView {
        match self {
            AssistantContent::Text(text) => AssistantContentView::Text(text@),
            AssistantContent::ToolCall(call) => AssistantContentView::ToolCall(call@),
            AssistantContent::Reasoning(reasoning) => AssistantContentView::Reasoning(reasoning@),
        }
    }
}

impl DeepView for AssistantContent {
    type V = AssistantContentView;

    open spec fn deep_view(&self) -> AssistantContentView {
        self@
    }
}

/// A message of the conversation.
#[allow(inconsistent_fields)]
#[derive(Clone, Debug, PartialEq)]
pub enum Message {
    User { content: OneOrMany<UserContent> },
    Assistant { id: Option<String>, content: OneOrMany<AssistantContent> },
}

/// The model of `Message`: its mathematical view.
#[allow(inconsistent_fields)]
pub enum MessageView {
    /// `content` is never empty.
    User { content: Seq<UserContentView> },
    /// `content` is never empty.
    Assistant { id: Option<Seq<char>>, content: Seq<AssistantContentView> },
}

impl View for Message {
    type V = MessageView;

    open spec fn view(&self) -> MessageView {
        match self {
            Message::User { content } => MessageView::User { content: content.deep_view() },
            Message::Assistant { id, content } => MessageView::Assistant {
                id: id.deep_view(),
                content: content.deep_view(),
            },
        }
    }
}

impl DeepView for Message {
    type V = MessageView;

    open spec fn deep_view(&self) -> MessageView {
        self@
    }
}

impl Message {
    /// A user message of one text.
    pub fn user(text: &str) -> (r: Message)
        ensures
            r@ == (MessageView::User { content: seq![UserContentView::Text(text@)] }),
    {
        let content = OneOrMany::one(UserContent::Text(text.to_owned()));
        let r = Message::User { content };
        assert(r@->User_content =~= seq![UserContentView::Text(text@)]);
        r
    }

    /// An assistant message of one text.
    pub fn assistant(text: &str) -> (r: Message)
        ensures
            r@ == (MessageView::Assistant {
                id: None,
                content: seq![AssistantContentView::Text(text@)],
            }),
    {
        let content = OneOrMany::one(AssistantContent::Text(text.to_owned()));
        let r = Message::Assistant { id: None, content };
        assert(r@->Assistant_content =~= seq![AssistantContentView::Text(text@)]);
        r
    }
}

} // verus!
