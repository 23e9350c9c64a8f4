//! The provider-agnostic completion request and response.

use vstd::prelude::*;
use crate::message::{
    AssistantContent, DocumentContent, DocumentContentView, DocumentMediaType, DocumentSourceKind,
    DocumentSourceKindView, Message, MessageError, MessageView, UserContent, UserContentView,
};
use crate::one_or_many::OneOrMany;
use crate::text::{debug_text, join, joined, quoted};
use crate::views::{flat_map, group_views, lemma_flat_map_add, lemma_flat_map_step};

verus! {

broadcast use group_views;

/// What a completion can fail with.
#[derive(Clone, Debug, PartialEq)]
pub enum CompletionError {
    /// The provider answered with an error.
    ProviderError(String),
    /// The provider's answer could not be used.
    ResponseError(String),
    /// The external tool channel failed.
    MCPError(String),
    /// The request could not be encoded for the provider.
    RequestError(String),
}

/// The model of `CompletionError`: its mathematical view.
pub enum CompletionErrorView {
    ProviderError(Seq<char>),
    ResponseError(Seq<char>),
    MCPError(Seq<char>),
    RequestError(Seq<char>),
}

impl View for CompletionError {
    type V = CompletionErrorView;

    open spec fn view(&self) -> CompletionErrorView {
        match self {
            CompletionError::ProviderError(text) => CompletionErrorView::ProviderError(text@),
            CompletionError::ResponseError(text) => CompletionErrorView::ResponseError(text@),
            CompletionError::MCPError(text) => CompletionErrorView::MCPError(text@),
            CompletionError::RequestError(text) => CompletionErrorView::RequestError(text@),
        }
    }
}

/// A tool the model may call: its name, what it does, and the JSON schema of
/// its parameters.
#[derive(Clone, Debug, PartialEq)]
pub struct ToolDefinition {
    pub name: String,
    pub description: String,
    pub parameters: serde_json::Value,
}

/// The model of `ToolDefinition`: its mathematical view.
pub struct ToolDefinitionView {
    pub name: Seq<char>,
    pub description: Seq<char>,
    pub parameters: serde_json::Value,
}

impl View for ToolDefinition {
    type V = ToolDefinitionView;

    open spec fn view(&self) -> ToolDefinitionView {
        ToolDefinitionView {
            name: self.name@,
            description: self.description@,
            parameters: self.parameters,
        }
    }
}

impl DeepView for ToolDefinition {
    type V = ToolDefinitionView;

    open spec fn deep_view(&self) -> ToolDefinitionView {
        self@
    }
}

/// Which tools the model may or must call.
#[derive(Clone, Debug, PartialEq)]
pub enum ToolChoice {
    /// The model decides.
    Auto,
    /// The model may call no tool.
    Disabled,
    /// The model must call a tool.
    Required,
    /// The model must call one of the named tools.
    Specific { function_names: Vec<String> },
}

/// The model of `ToolChoice`: its mathematical view.
pub enum ToolChoiceView {
    Auto,
    Disabled,
    Required,
    Specific { function_names: Seq<Seq<char>> },
}

impl View for ToolChoice {
    type V = ToolChoiceView;

    open spec fn view(&self) -> ToolChoiceView {
        match self {
            ToolChoice::Auto => ToolChoiceView::Auto,
            ToolChoice::Disabled => ToolChoiceView::Disabled,
            ToolChoice::Required => ToolChoiceView::Required,
            ToolChoice::Specific { function_names } => ToolChoiceView::Specific {
                function_names: function_names.deep_view(),
            },
        }
    }
}

impl DeepView for ToolChoice {
    type V = ToolChoiceView;

    open spec fn deep_view(&self) -> ToolChoiceView {
        self@
    }
}

/// The sampling temperature of a request, held as the bit pattern of the
/// double-precision number so that it passes through unchanged.
#[derive(Clone, Copy, Debug, PartialEq, Eq, Structural)]
pub struct Temperature {
    pub bits: u64,
}

/// Token counts of one completion.
#[derive(Clone, Copy, Debug, PartialEq, Eq, Structural)]
pub struct Usage {
    pub input_tokens: u64,
    pub output_tokens: u64,
    pub total_tokens: u64,
}

impl Usage {
    /// All counts zero.
    pub fn new() -> (r: Usage)
        ensures
            r == (Usage { input_tokens: 0, output_tokens: 0, total_tokens: 0 }),
    {
        Usage { input_tokens: 0, output_tokens: 0, total_tokens: 0 }
    }
}

/// A context document that accompanies every request of an agent.
#[derive(Clone, Debug, PartialEq)]
pub struct Document {
    pub id: String,
    pub text: String,
    /// Further properties of the document, each a name with its value. They
    /// are shown to the model before the text, in the order in which they
    /// are held.
    pub additional_props: Vec<(String, String)>,
}

/// The model of `Document`: its mathematical view.
pub struct DocumentView {
    pub id: Seq<char>,
    pub text: Seq<char>,
    pub additional_props: Seq<(Seq<char>, Seq<char>)>,
}

impl View for Document {
    type V = DocumentView;

    open spec fn view(&self) -> DocumentView {
        DocumentView {
            id: self.id@,
            text: self.text@,
            additional_props: self.additional_props.deep_view(),
        }
    }
}

impl DeepView for Document {
    type V = DocumentView;

    open spec fn deep_view(&self) -> DocumentView {
        self@
    }
}

impl DocumentView {
    /// One property as it is shown to the model: its name, a colon, and its
    /// value between quotes.
    pub open spec fn property_text() -> spec_fn((Seq<char>, Seq<char>)) -> Seq<char> {
        |property: (Seq<char>, Seq<char>)| property.0 + ": "@ + quoted(property.1)
    }

    /// What stands between the opening and the closing line: the text, and
    /// before it, where the document has properties, a line that holds them.
    pub open spec fn body(self) -> Seq<char> {
        if self.additional_props.len() == 0 {
            self.text
        } else {
            "<metadata "@ + joined(self.additional_props.map_values(Self::property_text()), " "@)
                + " />\n"@ + self.text
        }
    }

    /// The document as it is shown to the model: its body between a line that
    /// names its id and a closing line.
    pub open spec fn rendered(self) -> Seq<char> {
        "<file id: "@ + self.id + ">\n"@ + self.body() + "\n</file>\n"@
    }

    /// `as_content`, as a function.
    pub open spec fn as_content_fn() -> spec_fn(DocumentView) -> UserContentView {
        |document: DocumentView| document.as_content()
    }

    /// The document as a part of a user message.
    pub open spec fn as_content(self) -> UserContentView {
        UserContentView::Document(
            DocumentContentView {
                data: DocumentSourceKindView::Text(self.rendered()),
                media_type: Some(DocumentMediaType::TXT),
            },
        )
    }
}

impl Document {
    /// A document without further properties.
    pub fn new(id: String, text: String) -> (r: Document)
        ensures
            r@ == (DocumentView { id: id@, text: text@, additional_props: Seq::empty() }),
    {
        Document { id, text, additional_props: Vec::new() }
    }

    /// A copy of the document.
    pub fn duplicate(&self) -> (r: Document)
        ensures
            r@ == self@,
    {
        let mut props: Vec<(String, String)> = Vec::new();
        let mut i: usize = 0;
        while i < self.additional_props.len()
            invariant
                i <= self.additional_props.len(),
                props.deep_view() == self.additional_props.deep_view().take(i as int),
            decreases self.additional_props.len() - i,
        {
            proof {
                let all = self.additional_props.deep_view();
                assert(all.take(i + 1) =~= all.take(i as int).push(all[i as int]));
            }
            let property = &self.additional_props[i];
            props.push((property.0.clone(), property.1.clone()));
            i += 1;
        }
        proof {
            let all = self.additional_props.deep_view();
            assert(all.take(all.len() as int) =~= all);
        }
        Document { id: self.id.clone(), text: self.text.clone(), additional_props: props }
    }

    /// What stands between the opening and the closing line.
    fn body(&self) -> (r: String)
        ensures
            r@ == self@.body(),
    {
        if self.additional_props.len() == 0 {
            return self.text.clone();
        }
        let ghost all = self.additional_props.deep_view();
        let mut texts: Vec<String> = Vec::new();
        let mut i: usize = 0;
        while i < self.additional_props.len()
            invariant
                i <= self.additional_props.len(),
                all == self.additional_props.deep_view(),
                texts.deep_view() == all.take(i as int).map_values(DocumentView::property_text()),
            decreases self.additional_props.len() - i,
        {
            proof {
                let f = DocumentView::property_text();
                assert(all.take(i + 1).map_values(f) =~= all.take(i as int).map_values(f).push(
                    f(all[i as int]),
                ));
            }
            let property = &self.additional_props[i];
            let mut text = property.0.clone();
            text.append(": ");
            text.append(debug_text(property.1.as_str()).as_str());
            texts.push(text);
            i += 1;
        }
        proof {
            assert(all.take(all.len() as int) =~= all);
        }
        let mut out = "<metadata ".to_owned();
        out.append(join(&texts, " ").as_str());
        out.append(" />\n");
        out.append(self.text.as_str());
        out
    }

    /// The document as it is shown to the model.
    pub fn render(&self) -> (r: String)
        ensures
            r@ == self@.rendered(),
    {
        let mut out = String::from_str("<file id: ");
        out.append(self.id.as_str());
        out.append(">\n");
        out.append(self.body().as_str());
        out.append("\n</file>\n");
        out
    }
}

/// One provider-agnostic completion request.
#[derive(Clone, Debug, PartialEq)]
pub struct CompletionRequest {
    /// The system prompt.
    pub preamble: Option<String>,
    /// The conversation so far, oldest first; the prompt is its last message.
    pub chat_history: Vec<Message>,
    /// Context documents.
    pub documents: Vec<Document>,
    /// The tools the model may call.
    pub tools: Vec<ToolDefinition>,
    pub temperature: Option<Temperature>,
    pub max_tokens: Option<u64>,
    pub tool_choice: Option<ToolChoice>,
    /// Provider-specific parameters, merged into the request as they are.
    pub additional_params: Option<serde_json::Value>,
}

/// The model of `CompletionRequest`: its mathematical view.
pub struct CompletionRequestView {
    pub preamble: Option<Seq<char>>,
    pub chat_history: Seq<MessageView>,
    pub documents: Seq<DocumentView>,
    pub tools: Seq<ToolDefinitionView>,
    pub temperature: Option<Temperature>,
    pub max_tokens: Option<u64>,
    pub tool_choice: Option<ToolChoiceView>,
    pub additional_params: Option<serde_json::Value>,
}

impl View for CompletionRequest {
    type V = CompletionRequestView;

    open spec fn view(&self) -> CompletionRequestView {
        CompletionRequestView {
            preamble: self.preamble.deep_view(),
            chat_history: self.chat_history.deep_view(),
            documents: self.documents.deep_view(),
            tools: self.tools.deep_view(),
            temperature: self.temperature,
            max_tokens: self.max_tokens,
            tool_choice: self.tool_choice.deep_view(),
            additional_params: self.additional_params,
        }
    }
}

impl CompletionError {
    /// The completion error for a message that could not be encoded.
    pub fn from(error: MessageError) -> (r: CompletionError)
        ensures
            r@ == CompletionErrorView::RequestError(error->ConversionError_0@),
    {
        match error {
            MessageError::ConversionError(text) => CompletionError::RequestError(text),
        }
    }
}

impl CompletionRequestView {
    /// The messages of the request in the order in which every backend sends
    /// them: the message that carries the context documents, if there is
    /// one, before the chat history.
    pub open spec fn ordered_history(self) -> Seq<MessageView> {
        match self.normalized_documents() {
            Some(documents) => seq![documents] + self.chat_history,
            None => self.chat_history,
        }
    }

    /// The message that carries the context documents: none without
    /// documents, else one user message with one part for each document, in
    /// the documents' order.
    pub open spec fn normalized_documents(self) -> Option<MessageView> {
        if self.documents.len() == 0 {
            None
        } else {
            Some(
                MessageView::User {
                    content: self.documents.map_values(DocumentView::as_content_fn()),
                },
            )
        }
    }
}

impl CompletionRequest {
    /// The context documents as one user message, if there are any.
    pub fn normalized_documents(&self) -> (r: Option<Message>)
        ensures
            r.deep_view() == self@.normalized_documents(),
    {
        if self.documents.len() == 0 {
            return None;
        }
        let first = Self::document_content(&self.documents[0]);
        let mut content = OneOrMany::one(first);
        let mut i: usize = 1;
        while i < self.documents.len()
            invariant
                1 <= i <= self.documents.len(),
                content.deep_view() == self.documents.deep_view().take(i as int).map_values(
                    DocumentView::as_content_fn(),
                ),
            decreases self.documents.len() - i,
        {
            let part = Self::document_content(&self.documents[i]);
            proof {
                let docs = self.documents.deep_view();
                let f = DocumentView::as_content_fn();
                assert(docs.take(i + 1).map_values(f) =~= docs.take(i as int).map_values(f).push(
                    f(docs[i as int]),
                ));
            }
            content.push(part);
            i += 1;
        }
        proof {
            assert(self.documents.deep_view().take(self.documents.len() as int)
                =~= self.documents.deep_view());
        }
        Some(Message::User { content })
    }

    fn document_content(document: &Document) -> (r: UserContent)
        ensures
            r@ == document@.as_content(),
    {
        UserContent::Document(
            DocumentContent {
                data: DocumentSourceKind::Text(document.render()),
                media_type: Some(DocumentMediaType::TXT),
            },
        )
    }
}

/// The decoded answer of a provider.
#[derive(Clone, Debug, PartialEq)]
pub struct CompletionResponse<R> {
    /// What the model said, text parts before tool calls; never empty.
    pub choice: OneOrMany<AssistantContent>,
    pub usage: Usage,
    /// The provider's own answer, as it was received.
    pub raw_response: R,
}

/// The ordering invariant: whatever a backend encodes a message to, for a
/// request with documents the messages that its context documents encode to
/// come before all the messages that its chat history encodes to.
pub proof fn law_documents_precede_history<M>(
    request: CompletionRequestView,
    encoding: spec_fn(MessageView) -> Seq<M>,
)
    requires
        request.documents.len() > 0,
    ensures
        request.normalized_documents() is Some,
        flat_map(request.ordered_history(), encoding) == encoding(
            request.normalized_documents()->0,
        ) + flat_map(request.chat_history, encoding),
{
    let documents = request.normalized_documents()->0;
    lemma_flat_map_add(seq![documents], request.chat_history, encoding);
    lemma_flat_map_step(seq![documents], encoding, 0);
    assert(seq![documents].take(0) =~= Seq::<MessageView>::empty());
    assert(seq![documents].take(1) =~= seq![documents]);
    assert(flat_map(Seq::<MessageView>::empty(), encoding) =~= Seq::<M>::empty());
    assert(flat_map(seq![documents], encoding) =~= encoding(documents));
}

} // verus!
