//! The agents of an application, by their code.

use vstd::prelude::*;
use std::sync::Arc;
use crate::agent_builder::{ClientBuildError, ClientBuildErrorView};
use crate::client::{AgentConfig, AgentConfigView};
use crate::views::group_views;

verus! {

broadcast use group_views;

/// What a list of agents tells of one agent.
#[derive(Clone, Debug, PartialEq)]
pub struct AgentVo {
    pub name: String,
    pub desc: String,
    /// Why the agent could not be built, if it could not.
    pub error: Option<String>,
}

/// The model of `AgentVo`: its mathematical view.
pub struct AgentVoView {
    pub name: Seq<char>,
    pub desc: Seq<char>,
    pub error: Option<Seq<char>>,
}

impl DeepView for AgentVo {
    type V = AgentVoView;

    open spec fn deep_view(&self) -> AgentVoView {
        AgentVoView { name: self.name@, desc: self.desc@, error: self.error.deep_view() }
    }
}

impl AgentVoView {
    /// What a list of agents tells of the agent of a configuration.
    pub open spec fn of(config: AgentConfigView) -> AgentVoView {
        AgentVoView { name: config.name, desc: config.desc, error: config.error }
    }

    /// `of`, as a function.
    pub open spec fn of_fn() -> spec_fn(AgentConfigView) -> AgentVoView {
        |config: AgentConfigView| AgentVoView::of(config)
    }
}

/// The agents of a manager: each agent that was built, with its code.
pub type Agents<A> = Seq<(Seq<char>, A)>;

/// The place of the agent of the given code among the agents, if there is
/// one.
pub open spec fn place<A>(agents: Agents<A>, code: Seq<char>) -> Option<int> {
    if exists|i: int| is_place(agents, code, i) {
        Some(choose|i: int| is_place(agents, code, i))
    } else {
        None
    }
}

/// Whether `i` is the first place among the agents at which the code is
/// `code`.
pub open spec fn is_place<A>(agents: Agents<A>, code: Seq<char>, i: int) -> bool {
    &&& 0 <= i < agents.len()
    &&& agents[i].0 == code
    &&& forall|j: int| 0 <= j < i ==> agents[j].0 != code
}

/// No two agents have the same code.
pub open spec fn distinct_codes<A>(agents: Agents<A>) -> bool {
    forall|i: int, j: int|
        0 <= i < agents.len() && 0 <= j < agents.len() && i != j ==> agents[i].0 != agents[j].0
}

/// The agents after one more was built: it stands in the place of the one
/// that had its code, or at the end where none had.
pub open spec fn with_agent<A>(agents: Agents<A>, code: Seq<char>, agent: A) -> Agents<A> {
    match place(agents, code) {
        Some(i) => agents.update(i, (code, agent)),
        None => agents.push((code, agent)),
    }
}

/// What a manager holds.
pub struct AgentManagerView<A> {
    /// The agents that were built, no two with the same code.
    pub agents: Agents<A>,
    /// The configurations that were tried, in the order of trying.
    pub configs: Seq<AgentConfigView>,
}

impl<A> AgentManagerView<A> {
    /// After the building of the agent of `config` succeeded.
    pub open spec fn built(self, config: AgentConfigView, agent: A) -> Self {
        AgentManagerView {
            agents: with_agent(self.agents, config.code, agent),
            configs: self.configs.push(config),
        }
    }

    /// After the building of the agent of `config` failed: the
    /// configuration is kept with the error in words.
    pub open spec fn failed(self, config: AgentConfigView, error: ClientBuildErrorView) -> Self {
        AgentManagerView {
            agents: self.agents,
            configs: self.configs.push(
                AgentConfigView { error: Some(error.text()), ..config },
            ),
        }
    }
}

/// The agents of an application.
pub struct AgentManager<A> {
    agent_map: Vec<(String, Arc<A>)>,
    agent_vec: Vec<Arc<AgentConfig>>,
}

impl<A> View for AgentManager<A> {
    type V = AgentManagerView<A>;

    closed spec fn view(&self) -> AgentManagerView<A> {
        AgentManagerView {
            agents: self.agent_map@.map_values(|entry: (String, Arc<A>)| (entry.0@, *entry.1)),
            configs: self.agent_vec@.map_values(|config: Arc<AgentConfig>| (*config)@),
        }
    }
}

impl<A> AgentManager<A> {
    /// A manager without agents.
    pub fn new() -> (r: Self)
        ensures
            r@.agents == Seq::<(Seq<char>, A)>::empty(),
            r@.configs == Seq::<AgentConfigView>::empty(),
            distinct_codes(r@.agents),
    {
        let r = AgentManager { agent_map: Vec::new(), agent_vec: Vec::new() };
        assert(r@.agents =~= Seq::<(Seq<char>, A)>::empty());
        assert(r@.configs =~= Seq::<AgentConfigView>::empty());
        r
    }

    /// The place of the agent of the given code.
    fn find(&self, code: &str) -> (r: Option<usize>)
        ensures
            match r {
                Some(i) => place(self@.agents, code@) == Some(i as int) && i
                    < self.agent_map@.len(),
                None => place(self@.agents, code@) is None,
            },
    {
        let wanted = code.to_owned();
        let mut i: usize = 0;
        while i < self.agent_map.len()
            invariant
                i <= self.agent_map.len(),
                wanted@ == code@,
                forall|j: int| 0 <= j < i ==> self@.agents[j].0 != code@,
            decreases self.agent_map.len() - i,
        {
            if self.agent_map[i].0 == wanted {
                proof {
                    let agents = self@.agents;
                    assert(is_place(agents, code@, i as int));
                    let chosen = choose|j: int| is_place(agents, code@, j);
                    assert(is_place(agents, code@, chosen));
                    assert(chosen == i);
                }
                return Some(i);
            }
            i += 1;
        }
        None
    }

    /// The agent of the given code, if the manager holds one.
    pub fn agent(&self, code: &str) -> (r: Option<&Arc<A>>)
        ensures
            match r {
                Some(agent) => place(self@.agents, code@) matches Some(i) && **agent
                    == self@.agents[i].1,
                None => place(self@.agents, code@) is None,
            },
    {
        match self.find(code) {
            Some(i) => Some(&self.agent_map[i].1),
            None => None,
        }
    }

    /// Takes up what the building of one agent gave: the agent under the
    /// code of its configuration, or the error in the configuration; the
    /// configuration is kept either way.
    pub fn record(&mut self, config: AgentConfig, outcome: Result<A, ClientBuildError>)
        ensures
            final(self)@ == match outcome {
                Ok(agent) => old(self)@.built(config@, agent),
                Err(error) => old(self)@.failed(config@, error@),
            },
            distinct_codes(old(self)@.agents) ==> distinct_codes(final(self)@.agents),
    {
        let mut config = config;
        match outcome {
            Ok(agent) => {
                let code = config.code.clone();
                match self.find(code.as_str()) {
                    Some(i) => {
                        let ghost before = self@.agents;
                        self.agent_map.set(i, (code, Arc::new(agent)));
                        proof {
                            assert(self@.agents =~= before.update(
                                i as int,
                                (config.code@, agent),
                            ));
                        }
                    },
                    None => {
                        let ghost before = self@.agents;
                        self.agent_map.push((code, Arc::new(agent)));
                        proof {
                            let after = self@.agents;
                            assert(after =~= before.push((config.code@, agent)));
                            if distinct_codes(before) {
                                assert forall|a: int, b: int|
                                    0 <= a < after.len() && 0 <= b < after.len() && a
                                        != b implies after[a].0 != after[b].0 by {
                                    if a < before.len() && b < before.len() {
                                        assert(before[a].0 != before[b].0);
                                    } else if a < before.len() {
                                        assert(!is_place(before, config.code@, a));
                                    } else {
                                        assert(!is_place(before, config.code@, b));
                                    }
                                }
                            }
                        }
                    },
                }
            },
            Err(error) => {
                config.error = Some(error.to_string());
            },
        }
        let ghost kept = config@;
        let ghost before = self@.configs;
        self.agent_vec.push(Arc::new(config));
        proof {
            assert(self@.configs =~= before.push(kept));
        }
    }

    /// What the manager tells of its agents: one entry for each
    /// configuration that was tried, in the order of trying.
    pub fn list_agent(&self) -> (r: Vec<AgentVo>)
        ensures
            r.deep_view() == self@.configs.map_values(AgentVoView::of_fn()),
    {
        let mut agent_info_vec: Vec<AgentVo> = Vec::new();
        let mut i: usize = 0;
        while i < self.agent_vec.len()
            invariant
                i <= self.agent_vec.len(),
                agent_info_vec.deep_view() == self@.configs.take(i as int).map_values(
                    AgentVoView::of_fn(),
                ),
            decreases self.agent_vec.len() - i,
        {
            proof {
                let all = self@.configs;
                let f = AgentVoView::of_fn();
                assert(all.take(i + 1).map_values(f) =~= all.take(i as int).map_values(f).push(
                    f(all[i as int]),
                ));
            }
            let ele = &self.agent_vec[i];
            agent_info_vec.push(
                AgentVo {
                    name: ele.name.clone(),
                    desc: ele.desc.clone(),
                    error: crate::client::duplicate_text(&ele.error),
                },
            );
            i += 1;
        }
        proof {
            let all = self@.configs;
            assert(all.take(all.len() as int) =~= all);
        }
        agent_info_vec
    }

    /// What the manager answers to a prompt: nothing yet.
    pub fn execute(_prompt: String) -> (r: String)
        ensures
            r@ == Seq::<char>::empty(),
    {
        String::new()
    }
}

} // verus!
