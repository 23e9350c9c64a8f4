//! What a backend client is configured with, and what it can do.

use vstd::prelude::*;

verus! {

/// A tool server that is started as a child process and spoken to over its
/// standard input and output.
#[derive(Clone, Debug, PartialEq)]
pub struct McpStdio {
    /// The program to start.
    pub command: String,
    /// Its arguments.
    pub args: Vec<String>,
    /// The directory to start it in, relative to the servers' directory.
    pub path: Option<String>,
}

/// The model of `McpStdio`: its mathematical view.
pub struct McpStdioView {
    pub command: Seq<char>,
    pub args: Seq<Seq<char>>,
    pub path: Option<Seq<char>>,
}

impl DeepView for McpStdio {
    type V = McpStdioView;

    open spec fn deep_view(&self) -> McpStdioView {
        McpStdioView {
            command: self.command@,
            args: self.args.deep_view(),
            path: self.path.deep_view(),
        }
    }
}

/// The external tool channel of an agent.
#[derive(Clone, Debug, PartialEq)]
pub enum McpType {
    /// The agent has none.
    Nothing,
    /// A child process.
    STDIO(McpStdio),
    /// A streaming-HTTP endpoint, by its address. Not implemented.
    SHTTP(String),
}

/// The model of `McpType`: its mathematical view.
pub enum McpTypeView {
    Nothing,
    STDIO(McpStdioView),
    SHTTP(Seq<char>),
}

impl DeepView for McpType {
    type V = McpTypeView;

    open spec fn deep_view(&self) -> McpTypeView {
        match self {
            McpType::Nothing => McpTypeView::Nothing,
            McpType::STDIO(stdio) => McpTypeView::STDIO(stdio.deep_view()),
            McpType::SHTTP(address) => McpTypeView::SHTTP(address@),
        }
    }
}

/// The configuration from which one agent is built.
#[derive(Clone, Debug, PartialEq)]
pub struct AgentConfig {
    pub name: String,
    /// The key of the agent, unique among the agents of a manager.
    pub code: String,
    pub desc: String,
    /// Why the agent could not be built, if it could not.
    pub error: Option<String>,
    pub model: String,
    pub base_url: String,
    /// The system prompt.
    pub sys_promte: Option<String>,
    pub api_key: Option<String>,
    pub mcp: McpType,
}

/// The model of `AgentConfig`: its mathematical view.
pub struct AgentConfigView {
    pub name: Seq<char>,
    pub code: Seq<char>,
    pub desc: Seq<char>,
    pub error: Option<Seq<char>>,
    pub model: Seq<char>,
    pub base_url: Seq<char>,
    pub sys_promte: Option<Seq<char>>,
    pub api_key: Option<Seq<char>>,
    pub mcp: McpTypeView,
}

impl View for AgentConfig {
    type V = AgentConfigView;

    open spec fn view(&self) -> AgentConfigView {
        AgentConfigView {
            name: self.name@,
            code: self.code@,
            desc: self.desc@,
            error: self.error.deep_view(),
            model: self.model@,
            base_url: self.base_url@,
            sys_promte: self.sys_promte.deep_view(),
            api_key: self.api_key.deep_view(),
            mcp: self.mcp.deep_view(),
        }
    }
}

impl DeepView for AgentConfig {
    type V = AgentConfigView;

    open spec fn deep_view(&self) -> AgentConfigView {
        self@
    }
}

impl McpStdio {
    /// A copy of the description.
    pub fn duplicate(&self) -> (r: McpStdio)
        ensures
            r.deep_view() == self.deep_view(),
    {
        let args = self.args.clone();
        proof {
            assert(args.deep_view() =~= self.args.deep_view());
        }
        McpStdio {
            command: self.command.clone(),
            args,
            path: match &self.path {
                Some(path) => Some(path.clone()),
                None => None,
            },
        }
    }
}

impl McpType {
    /// A copy of the channel's description.
    pub fn duplicate(&self) -> (r: McpType)
        ensures
            r.deep_view() == self.deep_view(),
    {
        match self {
            McpType::Nothing => McpType::Nothing,
            McpType::STDIO(stdio) => McpType::STDIO(stdio.duplicate()),
            McpType::SHTTP(address) => McpType::SHTTP(address.clone()),
        }
    }
}

/// A copy of an optional text.
pub fn duplicate_text(text: &Option<String>) -> (r: Option<String>)
    ensures
        r.deep_view() == text.deep_view(),
{
    match text {
        Some(text) => Some(text.clone()),
        None => None,
    }
}

impl AgentConfig {
    /// A copy of the configuration.
    pub fn duplicate(&self) -> (r: AgentConfig)
        ensures
            r@ == self@,
    {
        AgentConfig {
            name: self.name.clone(),
            code: self.code.clone(),
            desc: self.desc.clone(),
            error: duplicate_text(&self.error),
            model: self.model.clone(),
            base_url: self.base_url.clone(),
            sys_promte: duplicate_text(&self.sys_promte),
            api_key: duplicate_text(&self.api_key),
            mcp: self.mcp.duplicate(),
        }
    }
}

/// A client that can make completion models.
pub trait CompletionClient {
    /// The completion model of the client.
    type Model;

    /// The completion model of the given name.
    fn completion_model(&self, model: &str) -> Self::Model;
}

/// The conversion of a provider client into a completion client.
pub trait AsCompletion {
    /// The completion client of the provider.
    type Completion: CompletionClient;

    /// The provider's completion client, if it has one. A provider has none
    /// unless its client says otherwise.
    fn as_completion(&self) -> (r: Option<Self::Completion>)
        default_ensures
            r is None,
    {
        None
    }
}

/// The conversion of a provider client into an embeddings client.
pub trait AsEmbeddings {
    /// The embeddings client of the provider.
    type Embeddings;

    /// The provider's embeddings client, if it has one. A provider has none
    /// unless its client says otherwise.
    fn as_embeddings(&self) -> (r: Option<Self::Embeddings>)
        default_ensures
            r is None,
    {
        None
    }
}

/// The conversion of a provider client into a client that can verify its
/// access to the provider.
pub trait AsVerify {
    /// The verifying client of the provider.
    type Verify;

    /// The provider's verifying client, if it has one. A provider has none
    /// unless its client says otherwise.
    fn as_verify(&self) -> (r: Option<Self::Verify>)
        default_ensures
            r is None,
    {
        None
    }
}

/// A client of one provider.
pub trait ProviderClient: AsCompletion + AsEmbeddings {
}

} // verus!
