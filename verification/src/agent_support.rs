//! The providers that come with the gateway, and the discovery of agent
//! configurations.

use vstd::prelude::*;
use crate::client::{AgentConfig, AgentConfigView, McpType};
use crate::text::{decimal_nat, u64_to_string};

verus! {

/// The providers that come with the gateway.
#[derive(Debug, Clone, Copy, PartialEq, Eq, Hash, Structural)]
pub enum DefaultProviders {
    Deepseek,
    Ollama,
}

impl DefaultProviders {
    /// The name of the provider.
    pub open spec fn name(self) -> Seq<char> {
        match self {
            DefaultProviders::Deepseek => "deepseek"@,
            DefaultProviders::Ollama => "ollama"@,
        }
    }

    /// The number under which the provider's factory is registered.
    pub open spec fn key(self) -> u8 {
        match self {
            DefaultProviders::Deepseek => 0,
            DefaultProviders::Ollama => 1,
        }
    }

    /// The name of the provider.
    pub fn as_str(&self) -> (r: &'static str)
        ensures
            r@ == self.name(),
    {
        match self {
            DefaultProviders::Deepseek => "deepseek",
            DefaultProviders::Ollama => "ollama",
        }
    }

    /// The name of the provider.
    pub fn to_string(&self) -> (r: String)
        ensures
            r@ == self.name(),
    {
        self.as_str().to_owned()
    }

    /// The number under which the provider's factory is registered.
    pub fn index(&self) -> (r: u8)
        ensures
            r == self.key(),
    {
        match self {
            DefaultProviders::Deepseek => 0,
            DefaultProviders::Ollama => 1,
        }
    }
}

/// Two providers with the same number are the same provider.
pub proof fn lemma_key_injective(left: DefaultProviders, right: DefaultProviders)
    ensures
        left.key() == right.key() <==> left == right,
{
}

/// The configuration of one agent, with the provider that serves it.
#[derive(Clone, Debug, PartialEq)]
pub struct AgentConfOwn {
    pub provider: DefaultProviders,
    pub config: AgentConfig,
}

/// A source of agent configurations.
pub trait SupportFindTrait {
    /// The configurations that the source holds.
    fn find_config(self) -> Vec<AgentConfOwn>;
}

/// The prefix under which the `n`th further configuration of a provider is
/// written: the provider's name followed by the number.
pub open spec fn numbered_prefix(provider: DefaultProviders, n: u64) -> Seq<char> {
    provider.name() + decimal_nat(n as nat)
}

/// The prefix under which the `n`th further configuration of a provider is
/// written.
pub fn prefix_of(provider: DefaultProviders, n: u64) -> (r: String)
    ensures
        r@ == numbered_prefix(provider, n),
{
    let mut out = provider.to_string();
    out.append(u64_to_string(n).as_str());
    out
}

/// Whether the values found under one prefix make up a configuration: the
/// model, the name, the code, the description and the address must all be
/// there.
pub open spec fn complete(
    model: Seq<char>,
    name: Seq<char>,
    code: Seq<char>,
    desc: Seq<char>,
    base_url: Seq<char>,
) -> bool {
    model.len() > 0 && name.len() > 0 && code.len() > 0 && desc.len() > 0 && base_url.len() > 0
}

/// The configuration that the values found under one prefix make up, if
/// they are complete. A value that was not found is given as empty.
pub fn from_values(
    provider: DefaultProviders,
    model: String,
    name: String,
    code: String,
    desc: String,
    api_key: Option<String>,
    base_url: String,
    sys_promte: Option<String>,
    mcp: McpType,
) -> (r: Option<AgentConfOwn>)
    ensures
        r is Some <==> complete(model@, name@, code@, desc@, base_url@),
        r matches Some(found) ==> found.provider == provider && found.config@ == (AgentConfigView {
            name: name@,
            code: code@,
            desc: desc@,
            error: None,
            model: model@,
            base_url: base_url@,
            sys_promte: sys_promte.deep_view(),
            api_key: api_key.deep_view(),
            mcp: mcp.deep_view(),
        }),
{
    if model.as_str().is_empty() || name.as_str().is_empty() || code.as_str().is_empty()
        || desc.as_str().is_empty() || base_url.as_str().is_empty() {
        return None;
    }
    Some(
        AgentConfOwn {
            provider,
            config: AgentConfig {
                model,
                code,
                error: None,
                desc,
                name,
                base_url,
                api_key,
                sys_promte,
                mcp,
            },
        },
    )
}

} // verus!
