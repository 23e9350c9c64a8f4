use benben::agent::AgentBuilder;
use benben::agent_builder::{
    channel_of, configure, require_completion, AgentPlan, ClientBuildError, ClientFactory,
    DynClientBuilder,
};
use benben::agent_support::{from_values, prefix_of, AgentConfOwn, DefaultProviders, SupportFindTrait};
use benben::client::{AgentConfig, AsCompletion, AsEmbeddings, AsVerify, CompletionClient, McpStdio, McpType};
use benben::completion::Temperature;
use benben::mananger::{AgentManager, AgentVo};

#[derive(Debug, Clone, PartialEq)]
struct Model {
    made_by: &'static str,
    base_url: String,
    name: String,
}

#[derive(Debug, Clone, PartialEq)]
struct Completions {
    made_by: &'static str,
    base_url: String,
}

impl CompletionClient for Completions {
    type Model = Model;

    fn completion_model(&self, model: &str) -> Model {
        Model { made_by: self.made_by, base_url: self.base_url.clone(), name: model.to_string() }
    }
}

#[derive(Debug, Clone, PartialEq)]
struct Client {
    made_by: &'static str,
    base_url: String,
    completes: bool,
}

impl AsCompletion for Client {
    type Completion = Completions;

    fn as_completion(&self) -> Option<Completions> {
        if self.completes {
            Some(Completions { made_by: self.made_by, base_url: self.base_url.clone() })
        } else {
            None
        }
    }
}

struct Mute;

impl AsCompletion for Mute {
    type Completion = Completions;
}

impl AsEmbeddings for Mute {
    type Embeddings = ();
}

impl AsVerify for Mute {
    type Verify = ();
}

type Factory = Box<dyn Fn(AgentConfig) -> Result<Client, String>>;

fn factory(name: DefaultProviders, made_by: &'static str) -> ClientFactory<Client, Factory> {
    ClientFactory::new(
        name,
        Box::new(move |config: AgentConfig| {
            if config.base_url.is_empty() {
                Err("no base url".to_string())
            } else {
                Ok(Client { made_by, base_url: config.base_url, completes: config.model != "embed-only" })
            }
        }),
    )
}

fn config(model: &str) -> AgentConfig {
    AgentConfig {
        name: "helper".to_string(),
        code: "h1".to_string(),
        desc: "helps".to_string(),
        error: None,
        model: model.to_string(),
        base_url: "http://localhost:11434".to_string(),
        sys_promte: Some("be brief".to_string()),
        api_key: None,
        mcp: McpType::Nothing,
    }
}

#[test]
fn providers_have_names_and_numbers() {
    assert_eq!(DefaultProviders::Deepseek.to_string(), "deepseek");
    assert_eq!(DefaultProviders::Ollama.to_string(), "ollama");
    assert_eq!(DefaultProviders::Deepseek.as_str(), "deepseek");
    assert_ne!(DefaultProviders::Deepseek.index(), DefaultProviders::Ollama.index());
}

#[test]
fn a_registered_provider_resolves_to_its_factory() {
    let mut registry = DynClientBuilder::new();
    assert!(matches!(
        registry.build(DefaultProviders::Ollama, config("m")),
        Err(ClientBuildError::UnknownProvider)
    ));
    assert!(matches!(
        registry.get_factory(DefaultProviders::Ollama),
        Err(ClientBuildError::UnknownProvider)
    ));
    registry.register(factory(DefaultProviders::Ollama, "ollama factory"));
    let client = registry.build(DefaultProviders::Ollama, config("m")).unwrap();
    assert_eq!(
        client,
        Client {
            made_by: "ollama factory",
            base_url: "http://localhost:11434".to_string(),
            completes: true
        }
    );
    assert_eq!(
        registry.get_factory(DefaultProviders::Ollama).unwrap().name(),
        DefaultProviders::Ollama
    );
    assert!(matches!(
        registry.build(DefaultProviders::Deepseek, config("m")),
        Err(ClientBuildError::UnknownProvider)
    ));
}

#[test]
fn a_second_registration_replaces_the_first() {
    let registry = DynClientBuilder::new().register_all(vec![
        factory(DefaultProviders::Ollama, "first"),
        factory(DefaultProviders::Deepseek, "deepseek"),
        factory(DefaultProviders::Ollama, "second"),
    ]);
    assert_eq!(registry.build(DefaultProviders::Ollama, config("m")).unwrap().made_by, "second");
    assert_eq!(
        registry.build(DefaultProviders::Deepseek, config("m")).unwrap().made_by,
        "deepseek"
    );
}

#[test]
fn a_failing_factory_gives_a_factory_error() {
    let registry =
        DynClientBuilder::new().register_all(vec![factory(DefaultProviders::Deepseek, "d")]);
    let mut bad = config("m");
    bad.base_url = String::new();
    assert_eq!(
        registry.build(DefaultProviders::Deepseek, bad.clone()).unwrap_err(),
        ClientBuildError::FactoryError("no base url".to_string())
    );
    assert_eq!(
        registry.completion(DefaultProviders::Deepseek, bad.clone()).unwrap_err(),
        ClientBuildError::FactoryError("no base url".to_string())
    );
    let plan: Result<AgentPlan<Model, ()>, ClientBuildError> =
        registry.agent(DefaultProviders::Deepseek, bad);
    assert_eq!(plan.err(), Some(ClientBuildError::FactoryError("no base url".to_string())));
}

#[test]
fn a_provider_without_completion_is_unsupported() {
    let registry =
        DynClientBuilder::new().register_all(vec![factory(DefaultProviders::Ollama, "o")]);
    let expected =
        ClientBuildError::UnsupportedFeature("ollama".to_string(), "completion".to_string());
    assert_eq!(
        registry.completion(DefaultProviders::Ollama, config("embed-only")).unwrap_err(),
        expected
    );
    let plan: Result<AgentPlan<Model, ()>, ClientBuildError> =
        registry.agent(DefaultProviders::Ollama, config("embed-only"));
    assert_eq!(plan.err(), Some(expected));
    assert!(Mute.as_completion().is_none());
    assert!(Mute.as_embeddings().is_none());
    assert!(Mute.as_verify().is_none());
}

#[test]
fn completion_model_is_made_for_the_configured_model() {
    let registry =
        DynClientBuilder::new().register_all(vec![factory(DefaultProviders::Ollama, "o")]);
    assert_eq!(
        registry.completion(DefaultProviders::Ollama, config("qwen3:4b")).unwrap(),
        Model {
            made_by: "o",
            base_url: "http://localhost:11434".to_string(),
            name: "qwen3:4b".to_string()
        }
    );
}

#[test]
fn agent_plan_applies_the_configuration() {
    let registry =
        DynClientBuilder::new().register_all(vec![factory(DefaultProviders::Ollama, "o")]);
    let stdio = McpStdio {
        command: "cargo".to_string(),
        args: vec!["run".to_string()],
        path: Some("servers/files".to_string()),
    };
    let mut with_channel = config("qwen3:4b");
    with_channel.mcp = McpType::STDIO(stdio.clone());
    let plan: AgentPlan<Model, &'static str> =
        registry.agent(DefaultProviders::Ollama, with_channel).unwrap();
    assert_eq!(plan.channel, Some(stdio));
    let agent = plan.builder.mcp_client("channel").build();
    assert_eq!(agent.name(), "helper");
    assert_eq!(agent.description, Some("helps".to_string()));
    assert_eq!(agent.preamble, Some("be brief".to_string()));
    assert_eq!(agent.temperature, Some(Temperature { bits: 0 }));
    assert_eq!(agent.max_tokens, None);
    assert_eq!(agent.model.name, "qwen3:4b");
    assert_eq!(agent.mcp_client.as_deref(), Some(&"channel"));

    let mut plain = config("m");
    plain.name = String::new();
    plain.sys_promte = None;
    let plan: AgentPlan<Model, ()> = registry.agent(DefaultProviders::Ollama, plain).unwrap();
    assert_eq!(plan.channel, None);
    let agent = plan.builder.build();
    assert_eq!(agent.name(), "Unnamed Agent");
    assert_eq!(agent.name, None);
    assert_eq!(agent.preamble, None);
    assert!(agent.mcp_client.is_none());
}

#[test]
fn build_errors_in_words() {
    assert_eq!(ClientBuildError::FactoryError("boom".to_string()).to_string(), "factory error: boom");
    assert_eq!(
        ClientBuildError::InvalidIdString("x y".to_string()).to_string(),
        "invalid id string: x y"
    );
    assert_eq!(
        ClientBuildError::UnsupportedFeature("ollama".to_string(), "completion".to_string())
            .to_string(),
        "unsupported feature: completion for ollama"
    );
    assert_eq!(ClientBuildError::UnknownProvider.to_string(), "unknown provider");
    assert_eq!(
        ClientBuildError::MCPStidioExecuteFailed("no such file".to_string()).to_string(),
        "Stdio MCP Execute Failed"
    );
    assert_eq!(
        ClientBuildError::MCPClinetInitError("timeout".to_string()).to_string(),
        "Stdio MCP Client Init Failed timeout"
    );
}

struct Fixed(Vec<AgentConfOwn>);

impl SupportFindTrait for Fixed {
    fn find_config(self) -> Vec<AgentConfOwn> {
        self.0
    }
}

#[test]
fn manager_keeps_agents_by_code_and_lists_every_configuration() {
    let registry =
        DynClientBuilder::new().register_all(vec![factory(DefaultProviders::Ollama, "o")]);
    let mut second = config("m2");
    second.code = "h2".to_string();
    second.name = "second".to_string();
    let mut again = config("m3");
    again.name = "again".to_string();
    let mut unknown = config("m4");
    unknown.code = "h4".to_string();
    unknown.name = "lost".to_string();
    let found = Fixed(vec![
        AgentConfOwn { provider: DefaultProviders::Ollama, config: config("m1") },
        AgentConfOwn { provider: DefaultProviders::Ollama, config: second },
        AgentConfOwn { provider: DefaultProviders::Ollama, config: again },
        AgentConfOwn { provider: DefaultProviders::Deepseek, config: unknown },
    ])
    .find_config();

    let mut manager = AgentManager::new();
    for AgentConfOwn { provider, config } in found {
        let outcome = registry
            .agent::<()>(provider, config.clone())
            .map(|plan| plan.builder.build());
        manager.record(config, outcome);
    }
    assert_eq!(manager.agent("h1").unwrap().model.name, "m3");
    assert_eq!(manager.agent("h2").unwrap().model.name, "m2");
    assert!(manager.agent("h4").is_none());
    assert!(manager.agent("").is_none());
    let vo = |name: &str, error: Option<&str>| AgentVo {
        name: name.to_string(),
        desc: "helps".to_string(),
        error: error.map(|e| e.to_string()),
    };
    assert_eq!(
        manager.list_agent(),
        vec![
            vo("helper", None),
            vo("second", None),
            vo("again", None),
            vo("lost", Some("unknown provider")),
        ]
    );
    assert_eq!(AgentManager::<()>::execute("prompt".to_string()), "");
    let _unused: AgentBuilder<(), ()> = AgentBuilder::new(());
}

#[test]
fn the_steps_of_building_an_agent() {
    assert_eq!(require_completion(DefaultProviders::Deepseek, Some(5)), Ok(5));
    assert_eq!(
        require_completion::<u8>(DefaultProviders::Deepseek, None),
        Err(ClientBuildError::UnsupportedFeature("deepseek".to_string(), "completion".to_string()))
    );

    let preset = AgentBuilder::<(), ()>::new(()).name("kept").preamble("kept too").max_tokens(3);
    let mut bare = config("m");
    bare.name = String::new();
    bare.sys_promte = None;
    let agent = configure(preset, &bare).build();
    assert_eq!(agent.name, Some("kept".to_string()));
    assert_eq!(agent.preamble, Some("kept too".to_string()));
    assert_eq!(agent.description, Some("helps".to_string()));
    assert_eq!(agent.temperature, Some(Temperature { bits: 0 }));
    assert_eq!(agent.max_tokens, Some(3));

    assert_eq!(channel_of(McpType::Nothing), None);
    let stdio = McpStdio { command: "c".to_string(), args: vec![], path: None };
    assert_eq!(channel_of(McpType::STDIO(stdio.clone())), Some(stdio));
}

#[test]
fn configurations_need_their_five_fields() {
    assert_eq!(prefix_of(DefaultProviders::Ollama, 1), "ollama1");
    assert_eq!(prefix_of(DefaultProviders::Deepseek, 10), "deepseek10");
    let values = |gap: usize| {
        let field = |i: usize, text: &str| if i == gap { String::new() } else { text.to_string() };
        from_values(
            DefaultProviders::Ollama,
            field(0, "m"),
            field(1, "n"),
            field(2, "c"),
            field(3, "d"),
            None,
            field(4, "http://h"),
            Some("p".to_string()),
            McpType::Nothing,
        )
    };
    for gap in 0..5 {
        assert_eq!(values(gap), None);
    }
    assert_eq!(
        values(5),
        Some(AgentConfOwn {
            provider: DefaultProviders::Ollama,
            config: AgentConfig {
                name: "n".to_string(),
                code: "c".to_string(),
                desc: "d".to_string(),
                error: None,
                model: "m".to_string(),
                base_url: "http://h".to_string(),
                sys_promte: Some("p".to_string()),
                api_key: None,
                mcp: McpType::Nothing,
            },
        })
    );
}
