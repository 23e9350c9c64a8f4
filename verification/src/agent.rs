//! Agents: a completion model together with a preamble, context documents
//! and, optionally, an external tool channel.

use vstd::prelude::*;
use std::sync::Arc;
use crate::completion::{
    CompletionRequest, CompletionRequestView, Document, DocumentView, Temperature, ToolDefinition,
};
use crate::message::Message;
use crate::text::{decimal_nat, join, joined, u64_to_string};
use crate::views::{group_views, views};

verus! {

broadcast use group_views;

/// What an agent is made of, but for its model and its tool channel.
pub struct AgentView {
    pub name: Option<Seq<char>>,
    pub description: Option<Seq<char>>,
    pub preamble: Option<Seq<char>>,
    pub static_context: Seq<DocumentView>,
    pub static_tools: Seq<Seq<char>>,
    pub additional_params: Option<serde_json::Value>,
    pub max_tokens: Option<u64>,
    pub temperature: Option<Temperature>,
    /// Whether the agent has an external tool channel.
    pub has_channel: bool,
}

/// A builder of an agent on the completion model `M`, with an external tool
/// channel of type `T`.
pub struct AgentBuilder<M, T> {
    name: Option<String>,
    description: Option<String>,
    model: M,
    preamble: Option<String>,
    static_context: Vec<Document>,
    static_tools: Vec<String>,
    additional_params: Option<serde_json::Value>,
    max_tokens: Option<u64>,
    temperature: Option<Temperature>,
    mcp_client: Option<T>,
}

impl<M, T> View for AgentBuilder<M, T> {
    type V = AgentView;

    closed spec fn view(&self) -> AgentView {
        AgentView {
            name: self.name.deep_view(),
            description: self.description.deep_view(),
            preamble: self.preamble.deep_view(),
            static_context: self.static_context.deep_view(),
            static_tools: self.static_tools.deep_view(),
            additional_params: self.additional_params,
            max_tokens: self.max_tokens,
            temperature: self.temperature,
            has_channel: self.mcp_client is Some,
        }
    }
}

/// The temperature that every agent runs at: zero.
pub open spec fn fixed_temperature() -> Temperature {
    Temperature { bits: 0 }
}

/// The id of the context document that is added as the `n`th.
pub open spec fn static_document_id(n: nat) -> Seq<char> {
    "static_doc_"@ + decimal_nat(n)
}

impl<M, T> AgentBuilder<M, T> {
    /// The builder that nothing was set on.
    pub open spec fn fresh() -> AgentView {
        AgentView {
            name: None,
            description: None,
            preamble: None,
            static_context: Seq::empty(),
            static_tools: Seq::empty(),
            additional_params: None,
            max_tokens: None,
            temperature: None,
            has_channel: false,
        }
    }

    /// The model of the builder.
    pub closed spec fn model(&self) -> M {
        self.model
    }

    /// The tool channel of the builder.
    pub closed spec fn channel(&self) -> Option<T> {
        self.mcp_client
    }

    /// A builder of an agent on `model`.
    pub fn new(model: M) -> (r: Self)
        ensures
            r@ == Self::fresh(),
            r.model() == model,
            r.channel() is None,
    {
        AgentBuilder {
            name: None,
            description: None,
            model,
            preamble: None,
            static_context: Vec::new(),
            static_tools: Vec::new(),
            temperature: None,
            max_tokens: None,
            additional_params: None,
            mcp_client: None,
        }
    }

    /// Sets the name of the agent.
    pub fn name(self, name: &str) -> (r: Self)
        ensures
            r@ == (AgentView { name: Some(name@), ..self@ }),
            r.model() == self.model(),
            r.channel() == self.channel(),
    {
        let mut r = self;
        r.name = Some(name.to_owned());
        r
    }

    /// Sets the description of the agent.
    pub fn description(self, description: &str) -> (r: Self)
        ensures
            r@ == (AgentView { description: Some(description@), ..self@ }),
            r.model() == self.model(),
            r.channel() == self.channel(),
    {
        let mut r = self;
        r.description = Some(description.to_owned());
        r
    }

    /// Sets the system prompt.
    pub fn preamble(self, preamble: &str) -> (r: Self)
        ensures
            r@ == (AgentView { preamble: Some(preamble@), ..self@ }),
            r.model() == self.model(),
            r.channel() == self.channel(),
    {
        let mut r = self;
        r.preamble = Some(preamble.to_owned());
        r
    }

    /// Removes the system prompt.
    pub fn without_preamble(self) -> (r: Self)
        ensures
            r@ == (AgentView { preamble: None, ..self@ }),
            r.model() == self.model(),
            r.channel() == self.channel(),
    {
        let mut r = self;
        r.preamble = None;
        r
    }

    /// Adds a line to the system prompt; one that was not set counts as
    /// empty.
    pub fn append_preamble(self, doc: &str) -> (r: Self)
        ensures
            r@ == (AgentView {
                preamble: Some(
                    (match self@.preamble {
                        Some(text) => text,
                        None => Seq::empty(),
                    }) + "\n"@ + doc@,
                ),
                ..self@
            }),
            r.model() == self.model(),
            r.channel() == self.channel(),
    {
        let mut r = self;
        let mut text = match r.preamble {
            Some(text) => text,
            None => String::new(),
        };
        text.append("\n");
        text.append(doc);
        r.preamble = Some(text);
        r
    }

    /// Adds a context document; its id tells its place among them.
    pub fn context(self, doc: &str) -> (r: Self)
        ensures
            r@ == (AgentView {
                static_context: self@.static_context.push(
                    DocumentView {
                        id: static_document_id(self@.static_context.len()),
                        text: doc@,
                        additional_props: Seq::empty(),
                    },
                ),
                ..self@
            }),
            r.model() == self.model(),
            r.channel() == self.channel(),
    {
        let mut r = self;
        let mut id = "static_doc_".to_owned();
        id.append(u64_to_string(r.static_context.len() as u64).as_str());
        r.static_context.push(Document::new(id, doc.to_owned()));
        r
    }

    /// Sets the temperature. Every agent runs at zero, whatever is asked
    /// for.
    pub fn temperature(self, _temperature: Temperature) -> (r: Self)
        ensures
            r@ == (AgentView { temperature: Some(fixed_temperature()), ..self@ }),
            r.model() == self.model(),
            r.channel() == self.channel(),
    {
        let mut r = self;
        r.temperature = Some(Temperature { bits: 0 });
        r
    }

    /// Sets the greatest number of tokens of an answer.
    pub fn max_tokens(self, max_tokens: u64) -> (r: Self)
        ensures
            r@ == (AgentView { max_tokens: Some(max_tokens), ..self@ }),
            r.model() == self.model(),
            r.channel() == self.channel(),
    {
        let mut r = self;
        r.max_tokens = Some(max_tokens);
        r
    }

    /// Sets parameters that are handed to the model as they are.
    pub fn additional_params(self, params: serde_json::Value) -> (r: Self)
        ensures
            r@ == (AgentView { additional_params: Some(params), ..self@ }),
            r.model() == self.model(),
            r.channel() == self.channel(),
    {
        let mut r = self;
        r.additional_params = Some(params);
        r
    }

    /// Attaches an external tool channel.
    pub fn mcp_client(self, client: T) -> (r: Self)
        ensures
            r@ == (AgentView { has_channel: true, ..self@ }),
            r.model() == self.model(),
            r.channel() == Some(client),
    {
        let mut r = self;
        r.mcp_client = Some(client);
        r
    }

    /// Builds the agent.
    pub fn build(self) -> (r: Agent<M, T>)
        ensures
            r@ == self@,
            *r.model == self.model(),
            match r.mcp_client {
                Some(client) => self.channel() == Some(*client),
                None => self.channel() is None,
            },
    {
        let mcp = match self.mcp_client {
            Some(client) => Some(Arc::new(client)),
            None => None,
        };
        Agent {
            name: self.name,
            description: self.description,
            model: Arc::new(self.model),
            preamble: self.preamble,
            static_context: self.static_context,
            static_tools: self.static_tools,
            temperature: self.temperature,
            max_tokens: self.max_tokens,
            additional_params: self.additional_params,
            mcp_client: mcp,
        }
    }
}

/// The name of an agent that was given none.
pub const UNKNOWN_AGENT_NAME: &'static str = "Unnamed Agent";

/// A completion model with a preamble, context documents and, optionally, an
/// external tool channel. All of them accompany every prompt.
pub struct Agent<M, T> {
    /// The name of the agent, for the record.
    pub name: Option<String>,
    pub description: Option<String>,
    pub model: Arc<M>,
    /// The system prompt.
    pub preamble: Option<String>,
    /// The context documents.
    pub static_context: Vec<Document>,
    /// The names of the tools that are always at the agent's disposal.
    pub static_tools: Vec<String>,
    pub temperature: Option<Temperature>,
    pub max_tokens: Option<u64>,
    /// Parameters that are handed to the model as they are.
    pub additional_params: Option<serde_json::Value>,
    /// The external tool channel.
    pub mcp_client: Option<Arc<T>>,
}

impl<M, T> View for Agent<M, T> {
    type V = AgentView;

    open spec fn view(&self) -> AgentView {
        AgentView {
            name: self.name.deep_view(),
            description: self.description.deep_view(),
            preamble: self.preamble.deep_view(),
            static_context: self.static_context.deep_view(),
            static_tools: self.static_tools.deep_view(),
            additional_params: self.additional_params,
            max_tokens: self.max_tokens,
            temperature: self.temperature,
            has_channel: self.mcp_client is Some,
        }
    }
}

/// One part of what a tool of the external channel gave back.
#[derive(Clone, Debug, PartialEq)]
pub enum ToolOutput {
    Text(String),
    /// An image, by its media type.
    Image { mime_type: String },
    /// A resource that is text.
    TextResource(String),
    /// A resource that is not text.
    BlobResource,
    Audio,
    ResourceLink,
}

/// The model of `ToolOutput`: its mathematical view.
pub enum ToolOutputView {
    Text(Seq<char>),
    Image { mime_type: Seq<char> },
    TextResource(Seq<char>),
    BlobResource,
    Audio,
    ResourceLink,
}

impl DeepView for ToolOutput {
    type V = ToolOutputView;

    open spec fn deep_view(&self) -> ToolOutputView {
        match self {
            ToolOutput::Text(text) => ToolOutputView::Text(text@),
            ToolOutput::Image { mime_type } => ToolOutputView::Image { mime_type: mime_type@ },
            ToolOutput::TextResource(text) => ToolOutputView::TextResource(text@),
            ToolOutput::BlobResource => ToolOutputView::BlobResource,
            ToolOutput::Audio => ToolOutputView::Audio,
            ToolOutput::ResourceLink => ToolOutputView::ResourceLink,
        }
    }
}

impl ToolOutputView {
    /// The part as text: a text itself, anything else by a placeholder.
    pub open spec fn text(self) -> Seq<char> {
        match self {
            ToolOutputView::Text(text) => text,
            ToolOutputView::Image { mime_type } => "[Image: "@ + mime_type + "]"@,
            ToolOutputView::TextResource(text) => text,
            ToolOutputView::BlobResource => "[Binary Resource]"@,
            ToolOutputView::Audio => "[Audio]"@,
            ToolOutputView::ResourceLink => "[Resource Link]"@,
        }
    }

    /// `text`, as a function.
    pub open spec fn text_fn() -> spec_fn(ToolOutputView) -> Seq<char> {
        |part: ToolOutputView| part.text()
    }
}

/// What a tool gave back, as one text: its parts as text, one on each line.
pub open spec fn tool_output_text(parts: Seq<ToolOutputView>) -> Seq<char> {
    joined(parts.map_values(ToolOutputView::text_fn()), "\n"@)
}

/// What a tool gave back, as one text.
pub fn render_tool_output(parts: Vec<ToolOutput>) -> (r: String)
    ensures
        r@ == tool_output_text(parts.deep_view()),
{
    let ghost all = views(parts@);
    let mut texts: Vec<String> = Vec::new();
    for part in it: parts
        invariant
            views(it.seq()) == all,
            texts.deep_view() == all.take(it.index() as int).map_values(
                ToolOutputView::text_fn(),
            ),
    {
        proof {
            let i = it.index() as int;
            let f = ToolOutputView::text_fn();
            assert(all.take(i + 1).map_values(f) =~= all.take(i).map_values(f).push(f(all[i])));
        }
        let text = match part {
            ToolOutput::Text(text) => text,
            ToolOutput::Image { mime_type } => {
                let mut text = "[Image: ".to_owned();
                text.append(mime_type.as_str());
                text.append("]");
                text
            },
            ToolOutput::TextResource(text) => text,
            ToolOutput::BlobResource => "[Binary Resource]".to_owned(),
            ToolOutput::Audio => "[Audio]".to_owned(),
            ToolOutput::ResourceLink => "[Resource Link]".to_owned(),
        };
        texts.push(text);
    }
    proof {
        assert(all.take(all.len() as int) =~= all);
    }
    join(&texts, "\n")
}

impl<M, T> Agent<M, T> {
    /// The name of the agent, or the name of those without one.
    pub fn name(&self) -> (r: &str)
        ensures
            r@ == match self.name {
                Some(name) => name@,
                None => UNKNOWN_AGENT_NAME@,
            },
    {
        match &self.name {
            Some(name) => name.as_str(),
            None => UNKNOWN_AGENT_NAME,
        }
    }

    /// What a call of a tool gives, once the external channel has answered:
    /// the answer as one text, or the empty text for an agent without a
    /// channel, which calls nothing.
    pub fn call_result(&self, answer: Option<Vec<ToolOutput>>) -> (r: String)
        ensures
            r@ == match answer {
                Some(parts) => if self.mcp_client is Some {
                    tool_output_text(parts.deep_view())
                } else {
                    Seq::empty()
                },
                None => Seq::empty(),
            },
    {
        match answer {
            Some(parts) => {
                if self.mcp_client.is_some() {
                    render_tool_output(parts)
                } else {
                    String::new()
                }
            },
            None => String::new(),
        }
    }

    /// The request that the agent makes of its model for a prompt: the chat
    /// history with the prompt as its last message, the agent's context
    /// documents, preamble and parameters, and the tools that its external
    /// channel offers.
    pub fn completion(&self, prompt: Message, chat_history: Vec<Message>, tools: Vec<
        ToolDefinition,
    >) -> (r: CompletionRequest)
        ensures
            r@ == (CompletionRequestView {
                preamble: self@.preamble,
                chat_history: chat_history.deep_view().push(prompt@),
                documents: self@.static_context,
                tools: tools.deep_view(),
                temperature: self.temperature,
                max_tokens: self.max_tokens,
                tool_choice: None,
                additional_params: self.additional_params,
            }),
    {
        let mut chat_history = chat_history;
        chat_history.push(prompt);
        let mut documents: Vec<Document> = Vec::new();
        let mut i: usize = 0;
        while i < self.static_context.len()
            invariant
                i <= self.static_context.len(),
                documents.deep_view() == self.static_context.deep_view().take(i as int),
            decreases self.static_context.len() - i,
        {
            proof {
                let all = self.static_context.deep_view();
                assert(all.take(i + 1) =~= all.take(i as int).push(all[i as int]));
            }
            documents.push(self.static_context[i].duplicate());
            i += 1;
        }
        proof {
            let all = self.static_context.deep_view();
            assert(all.take(all.len() as int) =~= all);
        }
        CompletionRequest {
            preamble: match &self.preamble {
                Some(text) => Some(text.clone()),
                None => None,
            },
            chat_history,
            documents,
            tools,
            temperature: self.temperature,
            max_tokens: self.max_tokens,
            tool_choice: None,
            additional_params: match &self.additional_params {
                Some(params) => Some(params.clone()),
                None => None,
            },
        }
    }
}

} // verus!
