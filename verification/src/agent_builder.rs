//! The provider registry: one factory of backend clients for each provider,
//! and the building of agents from a configuration.

use vstd::prelude::*;
use std::collections::HashMap;
use std::marker::PhantomData;
use crate::agent::{fixed_temperature, AgentBuilder, AgentView};
use crate::agent_support::DefaultProviders;
use crate::client::{
    AgentConfig, AgentConfigView, AsCompletion, CompletionClient, McpStdio, McpType, McpTypeView,
};
use crate::completion::Temperature;

verus! {

broadcast use vstd::std_specs::hash::group_hash_axioms;

/// What the building of a client or of an agent can fail with.
#[derive(Clone, Debug, PartialEq)]
pub enum ClientBuildError {
    /// The provider's factory failed, with its description of the failure.
    FactoryError(String),
    InvalidIdString(String),
    /// The provider lacks a capability: the provider, then the capability.
    UnsupportedFeature(String, String),
    /// No factory is registered for the provider.
    UnknownProvider,
    /// The child process of the tool channel could not be started.
    MCPStidioExecuteFailed(String),
    /// The tool channel's child process started, but the handshake with it
    /// failed.
    MCPClinetInitError(String),
}

/// The model of `ClientBuildError`: its mathematical view.
pub enum ClientBuildErrorView {
    FactoryError(Seq<char>),
    InvalidIdString(Seq<char>),
    UnsupportedFeature(Seq<char>, Seq<char>),
    UnknownProvider,
    MCPStidioExecuteFailed(Seq<char>),
    MCPClinetInitError(Seq<char>),
}

impl View for ClientBuildError {
    type V = ClientBuildErrorView;

    open spec fn view(&self) -> ClientBuildErrorView {
        match self {
            ClientBuildError::FactoryError(text) => ClientBuildErrorView::FactoryError(text@),
            ClientBuildError::InvalidIdString(text) => ClientBuildErrorView::InvalidIdString(
                text@,
            ),
            ClientBuildError::UnsupportedFeature(provider, feature) => {
                ClientBuildErrorView::UnsupportedFeature(provider@, feature@)
            },
            ClientBuildError::UnknownProvider => ClientBuildErrorView::UnknownProvider,
            ClientBuildError::MCPStidioExecuteFailed(text) => {
                ClientBuildErrorView::MCPStidioExecuteFailed(text@)
            },
            ClientBuildError::MCPClinetInitError(text) => ClientBuildErrorView::MCPClinetInitError(
                text@,
            ),
        }
    }
}

impl ClientBuildErrorView {
    /// The error in words.
    pub open spec fn text(self) -> Seq<char> {
        match self {
            ClientBuildErrorView::FactoryError(text) => "factory error: "@ + text,
            ClientBuildErrorView::InvalidIdString(text) => "invalid id string: "@ + text,
            ClientBuildErrorView::UnsupportedFeature(provider, feature) => "unsupported feature: "@
                + feature + " for "@ + provider,
            ClientBuildErrorView::UnknownProvider => "unknown provider"@,
            ClientBuildErrorView::MCPStidioExecuteFailed(_) => "Stdio MCP Execute Failed"@,
            ClientBuildErrorView::MCPClinetInitError(text) => "Stdio MCP Client Init Failed "@
                + text,
        }
    }
}

impl ClientBuildError {
    /// The error in words.
    pub fn to_string(&self) -> (r: String)
        ensures
            r@ == self@.text(),
    {
        match self {
            ClientBuildError::FactoryError(text) => {
                let mut out = "factory error: ".to_owned();
                out.append(text.as_str());
                out
            },
            ClientBuildError::InvalidIdString(text) => {
                let mut out = "invalid id string: ".to_owned();
                out.append(text.as_str());
                out
            },
            ClientBuildError::UnsupportedFeature(provider, feature) => {
                let mut out = "unsupported feature: ".to_owned();
                out.append(feature.as_str());
                out.append(" for ");
                out.append(provider.as_str());
                out
            },
            ClientBuildError::UnknownProvider => "unknown provider".to_owned(),
            ClientBuildError::MCPStidioExecuteFailed(_) => "Stdio MCP Execute Failed".to_owned(),
            ClientBuildError::MCPClinetInitError(text) => {
                let mut out = "Stdio MCP Client Init Failed ".to_owned();
                out.append(text.as_str());
                out
            },
        }
    }
}

/// The factory of one provider's clients: a function that makes a client
/// from a configuration, or says why it cannot.
#[verifier::reject_recursive_types(C)]
#[verifier::reject_recursive_types(F)]
pub struct ClientFactory<C, F: Fn(AgentConfig) -> Result<C, String>> {
    name: DefaultProviders,
    create_by_config: F,
    client: PhantomData<C>,
}

impl<C, F: Fn(AgentConfig) -> Result<C, String>> ClientFactory<C, F> {
    /// The provider of the factory.
    pub closed spec fn provider(&self) -> DefaultProviders {
        self.name
    }

    /// The function of the factory.
    pub closed spec fn function(&self) -> F {
        self.create_by_config
    }

    /// The provider of the factory.
    pub fn name(&self) -> (r: DefaultProviders)
        ensures
            r == self.provider(),
    {
        self.name
    }
}

impl<C, F: Fn(AgentConfig) -> Result<C, String>> ClientFactory<C, F> {
    /// A factory accepts every configuration.
    #[verifier::type_invariant]
    closed spec fn accepts_all(&self) -> bool {
        forall|config: AgentConfig| self.create_by_config.requires((config,))
    }

    /// The factory of `name`'s clients, which `create_by_config` makes.
    pub fn new(name: DefaultProviders, create_by_config: F) -> (r: Self)
        requires
            forall|config: AgentConfig| create_by_config.requires((config,)),
        ensures
            r.provider() == name,
            r.function() == create_by_config,
    {
        ClientFactory { name, create_by_config, client: PhantomData }
    }

    /// Makes a client from a configuration: gives what the factory's
    /// function gives, its failure as a factory error.
    pub fn build(&self, agent_conf: AgentConfig) -> (r: Result<C, ClientBuildError>)
        ensures
            match r {
                Ok(client) => self.function().ensures((agent_conf,), Ok(client)),
                Err(ClientBuildError::FactoryError(text)) => self.function().ensures(
                    (agent_conf,),
                    Err(text),
                ),
                Err(_) => false,
            },
    {
        proof {
            use_type_invariant(self);
        }
        match (self.create_by_config)(agent_conf) {
            Ok(client) => Ok(client),
            Err(text) => Err(ClientBuildError::FactoryError(text)),
        }
    }
}

/// The factories of a registry, by the number of their provider.
pub type Factories<C, F> = Map<u8, ClientFactory<C, F>>;

/// The factories after `factories` were registered in order: each under its
/// provider, in place of one that was registered for that provider before.
pub open spec fn registered<C, F: Fn(AgentConfig) -> Result<C, String>>(
    registry: Factories<C, F>,
    factories: Seq<ClientFactory<C, F>>,
) -> Factories<C, F>
    decreases factories.len(),
{
    if factories.len() == 0 {
        registry
    } else {
        registered(registry, factories.drop_last()).insert(
            factories.last().provider().key(),
            factories.last(),
        )
    }
}

/// The provider registry.
#[verifier::reject_recursive_types(C)]
#[verifier::reject_recursive_types(F)]
pub struct DynClientBuilder<C, F: Fn(AgentConfig) -> Result<C, String>> {
    registry: HashMap<u8, ClientFactory<C, F>>,
}

impl<C, F: Fn(AgentConfig) -> Result<C, String>> View for DynClientBuilder<C, F> {
    type V = Factories<C, F>;

    closed spec fn view(&self) -> Factories<C, F> {
        self.registry@
    }
}

/// What an agent is built from, once its client is made: the builder of the
/// agent, and the tool server to start for it, if it is to have one.
pub struct AgentPlan<M, T> {
    pub builder: AgentBuilder<M, T>,
    pub channel: Option<McpStdio>,
}

/// Whether `model` is the completion model that the completion client of
/// `client` gave when it was asked for the model of the name `name`.
pub open spec fn made_by<C: AsCompletion>(
    client: C,
    name: Seq<char>,
    model: <C::Completion as CompletionClient>::Model,
) -> bool {
    exists|completion: C::Completion, asked: &str|
        #![trigger call_ensures(
            <C::Completion as CompletionClient>::completion_model,
            (&completion, asked),
            model,
        )]
        call_ensures(C::as_completion, (&client,), Some(completion)) && asked@ == name
            && call_ensures(
            <C::Completion as CompletionClient>::completion_model,
            (&completion, asked),
            model,
        )
}

/// Whether `client` said that it has no completion client.
pub open spec fn lacks_completion<C: AsCompletion>(client: C) -> bool {
    call_ensures(C::as_completion, (&client,), None::<C::Completion>)
}

/// The completion client of a provider, or the error of a provider that
/// has none.
pub fn require_completion<X>(provider: DefaultProviders, completion: Option<X>) -> (r: Result<
    X,
    ClientBuildError,
>)
    ensures
        match completion {
            Some(client) => r == Ok::<X, ClientBuildError>(client),
            None => r is Err && r->Err_0@ == ClientBuildErrorView::UnsupportedFeature(
                provider.name(),
                "completion"@,
            ),
        },
{
    match completion {
        Some(client) => Ok(client),
        None => Err(
            ClientBuildError::UnsupportedFeature(provider.to_string(), "completion".to_owned()),
        ),
    }
}

/// What the configuration makes of a builder: the name, unless it is empty,
/// the description and the system prompt, if there is one, are set, and the
/// temperature is that of every agent.
pub open spec fn applied(builder: AgentView, config: AgentConfigView) -> AgentView {
    AgentView {
        name: if config.name.len() > 0 {
            Some(config.name)
        } else {
            builder.name
        },
        description: Some(config.desc),
        preamble: match config.sys_promte {
            Some(text) => Some(text),
            None => builder.preamble,
        },
        temperature: Some(fixed_temperature()),
        ..builder
    }
}

/// Applies a configuration to the builder of an agent.
pub fn configure<M, T>(builder: AgentBuilder<M, T>, config: &AgentConfig) -> (r: AgentBuilder<M, T>)
    ensures
        r@ == applied(builder@, config@),
        r.model() == builder.model(),
        r.channel() == builder.channel(),
{
    let mut build = builder;
    if !config.name.as_str().is_empty() {
        build = build.name(config.name.as_str());
    }
    build = build.description(config.desc.as_str());
    match &config.sys_promte {
        Some(sys_promte) => {
            build = build.preamble(sys_promte.as_str());
        },
        None => {},
    }
    build.temperature(Temperature { bits: 0 })
}

/// The tool server to start for an agent: the child process that its
/// configuration describes, if it describes one.
///
/// A tool channel over streaming HTTP is not implemented: a configuration
/// that asks for one is not taken.
pub fn channel_of(mcp: McpType) -> (r: Option<McpStdio>)
    requires
        !(mcp is SHTTP),
    ensures
        r.deep_view() == match mcp.deep_view() {
            McpTypeView::STDIO(stdio) => Some(stdio),
            _ => None,
        },
{
    match mcp {
        McpType::STDIO(stdio) => Some(stdio),
        _ => None,
    }
}

impl<C, F: Fn(AgentConfig) -> Result<C, String>> DynClientBuilder<C, F> {
    /// A registry without factories.
    pub fn new() -> (r: Self)
        ensures
            r@ == Map::<u8, ClientFactory<C, F>>::empty(),
    {
        DynClientBuilder { registry: HashMap::new() }
    }

    /// Registers a factory under its provider, in place of the one that was
    /// registered for that provider before.
    pub fn register(&mut self, factory: ClientFactory<C, F>)
        ensures
            final(self)@ == old(self)@.insert(factory.provider().key(), factory),
    {
        let key = factory.name.index();
        self.registry.insert(key, factory);
    }

    /// Registers the factories in order.
    pub fn register_all(self, factories: Vec<ClientFactory<C, F>>) -> (r: Self)
        ensures
            r@ == registered(self@, factories@),
    {
        let mut r = self;
        let ghost all = factories@;
        for factory in it: factories
            invariant
                it.seq() == all,
                r@ == registered(self@, all.take(it.index() as int)),
        {
            proof {
                assert(all.take(it.index() + 1).drop_last() =~= all.take(it.index() as int));
            }
            r.register(factory);
        }
        proof {
            assert(all.take(all.len() as int) =~= all);
        }
        r
    }

    /// The factory that is registered for the provider.
    pub fn get_factory(&self, provider: DefaultProviders) -> (r: Result<
        &ClientFactory<C, F>,
        ClientBuildError,
    >)
        ensures
            match r {
                Ok(factory) => self@.contains_key(provider.key()) && *factory
                    == self@[provider.key()],
                Err(error) => !self@.contains_key(provider.key()) && error
                    == ClientBuildError::UnknownProvider,
            },
    {
        let key = provider.index();
        match self.registry.get(&key) {
            Some(factory) => Ok(factory),
            None => Err(ClientBuildError::UnknownProvider),
        }
    }
}

impl<C, F: Fn(AgentConfig) -> Result<C, String>> DynClientBuilder<C, F> {
    /// Makes a client of the provider from a configuration, by the factory
    /// that is registered for the provider.
    pub fn build(&self, provider: DefaultProviders, agent_config: AgentConfig) -> (r: Result<
        C,
        ClientBuildError,
    >)
        ensures
            match r {
                Ok(client) => self@.contains_key(provider.key())
                    && self@[provider.key()].function().ensures((agent_config,), Ok(client)),
                Err(ClientBuildError::UnknownProvider) => !self@.contains_key(provider.key()),
                Err(ClientBuildError::FactoryError(text)) => self@.contains_key(provider.key())
                    && self@[provider.key()].function().ensures((agent_config,), Err(text)),
                Err(_) => false,
            },
    {
        match self.get_factory(provider) {
            Ok(factory) => factory.build(agent_config),
            Err(error) => Err(error),
        }
    }
}

impl<C: AsCompletion, F: Fn(AgentConfig) -> Result<C, String>> DynClientBuilder<C, F> {
    /// The completion model of the provider for the model that the
    /// configuration names.
    pub fn completion(&self, provider: DefaultProviders, config: AgentConfig) -> (r: Result<
        <C::Completion as CompletionClient>::Model,
        ClientBuildError,
    >)
        ensures
            !self@.contains_key(provider.key()) ==> r is Err && r->Err_0
                == ClientBuildError::UnknownProvider,
            r matches Err(ClientBuildError::UnknownProvider) ==> !self@.contains_key(
                provider.key(),
            ),
            r matches Err(ClientBuildError::FactoryError(text)) ==> self@.contains_key(
                provider.key(),
            ) && self@[provider.key()].function().ensures((config,), Err(text)),
            r matches Err(ClientBuildError::UnsupportedFeature(name, feature)) ==> {
                &&& name@ == provider.name()
                &&& feature@ == "completion"@
                &&& self@.contains_key(provider.key())
                &&& exists|client: C|
                    #![trigger self@[provider.key()].function().ensures((config,), Ok(client))]
                    self@[provider.key()].function().ensures((config,), Ok(client))
                        && lacks_completion(client)
            },
            r matches Err(error) ==> error is UnknownProvider || error is FactoryError || error
                is UnsupportedFeature,
            r matches Ok(model) ==> {
                &&& self@.contains_key(provider.key())
                &&& exists|client: C|
                    #![trigger self@[provider.key()].function().ensures((config,), Ok(client))]
                    self@[provider.key()].function().ensures((config,), Ok(client)) && made_by(
                        client,
                        config.model@,
                        model,
                    )
            },
    {
        let model = config.model.clone();
        let client = match self.build(provider, config) {
            Ok(client) => client,
            Err(error) => {
                return Err(error);
            },
        };
        match require_completion(provider, client.as_completion()) {
            Ok(completion) => {
                let made = completion.completion_model(model.as_str());
                assert(made_by(client, config.model@, made));
                Ok(made)
            },
            Err(error) => {
                assert(lacks_completion(client));
                Err(error)
            },
        }
    }

    /// The plan of the agent that the configuration describes: a builder on
    /// the provider's completion model for the model that the configuration
    /// names, with the configuration applied, and the tool server to start
    /// for the agent.
    ///
    /// A tool channel over streaming HTTP is not implemented: a
    /// configuration that asks for one is not taken.
    pub fn agent<T>(&self, provider: DefaultProviders, config: AgentConfig) -> (r: Result<
        AgentPlan<<C::Completion as CompletionClient>::Model, T>,
        ClientBuildError,
    >)
        requires
            !(config.mcp is SHTTP),
        ensures
            !self@.contains_key(provider.key()) ==> r is Err && r->Err_0
                == ClientBuildError::UnknownProvider,
            r matches Err(ClientBuildError::UnknownProvider) ==> !self@.contains_key(
                provider.key(),
            ),
            r matches Err(ClientBuildError::FactoryError(text)) ==> self@.contains_key(
                provider.key(),
            ) && exists|copy: AgentConfig|
                copy@ == config@ && self@[provider.key()].function().ensures((copy,), Err(text)),
            r matches Err(ClientBuildError::UnsupportedFeature(name, feature)) ==> {
                &&& name@ == provider.name()
                &&& feature@ == "completion"@
                &&& self@.contains_key(provider.key())
                &&& exists|copy: AgentConfig, client: C|
                    #![trigger self@[provider.key()].function().ensures((copy,), Ok(client))]
                    copy@ == config@ && self@[provider.key()].function().ensures(
                        (copy,),
                        Ok(client),
                    ) && lacks_completion(client)
            },
            r matches Err(error) ==> error is UnknownProvider || error is FactoryError || error
                is UnsupportedFeature,
            r matches Ok(plan) ==> {
                &&& self@.contains_key(provider.key())
                &&& exists|copy: AgentConfig, client: C|
                    #![trigger self@[provider.key()].function().ensures((copy,), Ok(client))]
                    copy@ == config@ && self@[provider.key()].function().ensures(
                        (copy,),
                        Ok(client),
                    ) && made_by(client, config.model@, plan.builder.model())
                &&& plan.builder@ == applied(
                    AgentBuilder::<<C::Completion as CompletionClient>::Model, T>::fresh(),
                    config@,
                )
                &&& plan.builder.channel() is None
                &&& plan.channel.deep_view() == match config@.mcp {
                    McpTypeView::STDIO(stdio) => Some(stdio),
                    _ => None,
                }
            },
    {
        let model = config.model.clone();
        let copy = config.duplicate();
        let client = match self.build(provider, copy) {
            Ok(client) => client,
            Err(error) => {
                return Err(error);
            },
        };
        let completion = match require_completion(provider, client.as_completion()) {
            Ok(completion) => completion,
            Err(error) => {
                assert(lacks_completion(client));
                return Err(error);
            },
        };
        let made = completion.completion_model(model.as_str());
        assert(made_by(client, config.model@, made));
        let fresh: AgentBuilder<<C::Completion as CompletionClient>::Model, T> = AgentBuilder::new(
            made,
        );
        let build = configure(fresh, &config);
        let channel = channel_of(config.mcp);
        Ok(AgentPlan { builder: build, channel })
    }
}

/// Registry determinism, for a provider that was not registered: after
/// factories were registered none of which is the provider's, the registry
/// holds none for it, so building its client gives `UnknownProvider`.
pub proof fn law_unregistered_is_unknown<C, F: Fn(AgentConfig) -> Result<C, String>>(
    factories: Seq<ClientFactory<C, F>>,
    provider: DefaultProviders,
)
    requires
        forall|i: int| 0 <= i < factories.len() ==> factories[i].provider() != provider,
    ensures
        !registered(Map::<u8, ClientFactory<C, F>>::empty(), factories).contains_key(
            provider.key(),
        ),
    decreases factories.len(),
{
    if factories.len() > 0 {
        law_unregistered_is_unknown(factories.drop_last(), provider);
        crate::agent_support::lemma_key_injective(factories.last().provider(), provider);
    }
}

/// Registry determinism, for a provider that was registered once: after
/// factories were registered exactly one of which is the provider's, the
/// registry holds that one for it, so building its client calls that
/// factory.
pub proof fn law_one_registration_resolves<C, F: Fn(AgentConfig) -> Result<C, String>>(
    factories: Seq<ClientFactory<C, F>>,
    provider: DefaultProviders,
    at: int,
)
    requires
        0 <= at < factories.len(),
        factories[at].provider() == provider,
        forall|i: int| 0 <= i < factories.len() && i != at ==> factories[i].provider() != provider,
    ensures
        registered(Map::<u8, ClientFactory<C, F>>::empty(), factories).contains_key(
            provider.key(),
        ),
        registered(Map::<u8, ClientFactory<C, F>>::empty(), factories)[provider.key()]
            == factories[at],
    decreases factories.len(),
{
    let empty = Map::<u8, ClientFactory<C, F>>::empty();
    if at == factories.len() - 1 {
    } else {
        law_one_registration_resolves(factories.drop_last(), provider, at);
        crate::agent_support::lemma_key_injective(factories.last().provider(), provider);
    }
}

} // verus!
