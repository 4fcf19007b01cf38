//! The registry of agents: lookup by name, enumeration, and the agent that
//! serves when no other is named.

use vstd::prelude::*;
use crate::chat_agent::ChatAgent;

verus! {

/// An agent's name and description, as the router is told of it.
#[derive(Debug)]
pub struct AgentInfo {
    pub name: String,
    pub description: String,
}

/// An `AgentInfo` as plain text.
pub struct AgentInfoView {
    pub name: Seq<char>,
    pub description: Seq<char>,
}

impl View for AgentInfo {
    type V = AgentInfoView;

    open spec fn view(&self) -> AgentInfoView {
        AgentInfoView { name: self.name@, description: self.description@ }
    }
}

/// What the router is told of an agent.
pub open spec fn info_of<A: ChatAgent>(agent: A) -> AgentInfoView {
    AgentInfoView { name: agent.name_spec(), description: agent.description_spec() }
}

/// Holds the agents, each under the name it had when it was registered.
/// No name occurs twice. The agents stand in the order in which their names
/// were first registered; registering a name again replaces the agent in
/// its place.
pub struct AgentManager<A: ChatAgent> {
    names: Vec<String>,
    agents: Vec<A>,
}

impl<A: ChatAgent> AgentManager<A> {
    #[verifier::type_invariant]
    spec fn well_formed(&self) -> bool {
        &&& self.names.len() == self.agents.len()
        &&& self.keys().no_duplicates()
    }

    /// The names under which agents are registered, in order of first
    /// registration.
    pub closed spec fn keys(&self) -> Seq<Seq<char>> {
        self.names@.map_values(|s: String| s@)
    }

    /// The registered agents; the agent at an index is registered under the
    /// key at that index.
    pub closed spec fn agents(&self) -> Seq<A> {
        self.agents@
    }

    /// Whether every agent bears the name that it is registered under. That
    /// is so from the start, and stays so until an agent is changed in
    /// place so as to bear another name.
    pub open spec fn names_match(&self) -> bool {
        forall|i: int|
            0 <= i < self.agents().len() ==> (#[trigger] self.agents()[i]).name_spec()
                == self.keys()[i]
    }

    /// The agent registered under `name`, if there is one.
    pub open spec fn lookup(&self, name: Seq<char>) -> Option<A> {
        if self.keys().contains(name) {
            Some(self.agents()[self.keys().index_of(name)])
        } else {
            None
        }
    }

    /// The agent that serves where no other is named: the first registered.
    pub open spec fn first(&self) -> Option<A> {
        if self.agents().len() > 0 {
            Some(self.agents()[0])
        } else {
            None
        }
    }

    /// The agent that a routed name resolves to: the one registered under
    /// it, else the default agent.
    pub open spec fn resolved(&self, name: Seq<char>) -> Option<A> {
        if self.keys().contains(name) {
            self.lookup(name)
        } else {
            self.first()
        }
    }

    /// An empty registry.
    pub fn new() -> (m: Self)
        ensures
            m.keys() == Seq::<Seq<char>>::empty(),
            m.agents() == Seq::<A>::empty(),
            m.names_match(),
    {
        let m = AgentManager { names: Vec::new(), agents: Vec::new() };
        assert(m.keys() =~= Seq::<Seq<char>>::empty());
        m
    }

    /// The number of registered agents.
    pub fn len(&self) -> (n: usize)
        ensures
            n == self.agents().len(),
            n == self.keys().len(),
    {
        proof {
            use_type_invariant(self);
        }
        self.agents.len()
    }

    /// Where `name` stands among the keys.
    fn position(&self, name: &str) -> (r: Option<usize>)
        ensures
            self.keys().len() == self.agents().len(),
            self.keys().no_duplicates(),
            r is Some <==> self.keys().contains(name@),
            r matches Some(i) ==> i < self.keys().len() && self.keys()[i as int] == name@
                && i == self.keys().index_of(name@),
    {
        proof {
            use_type_invariant(self);
        }
        let key = name.to_owned();
        let mut i: usize = 0;
        while i < self.names.len()
            invariant
                i <= self.names.len(),
                key@ == name@,
                self.names.len() == self.agents.len(),
                self.keys().no_duplicates(),
                forall|j: int| 0 <= j < i ==> self.keys()[j] != name@,
            decreases self.names.len() - i,
        {
            if self.names[i] == key {
                assert(self.keys()[i as int] == name@);
                return Some(i);
            }
            i += 1;
        }
        None
    }

    /// Registers `agent` under its name. An agent already registered under
    /// that name is replaced, silently.
    pub fn register(&mut self, agent: A)
        ensures
            final(self).keys().no_duplicates(),
            final(self).keys().len() == final(self).agents().len(),
            old(self).names_match() ==> final(self).names_match(),
            old(self).keys().contains(agent.name_spec()) ==> ({
                &&& final(self).keys() == old(self).keys()
                &&& final(self).agents() == old(self).agents().update(
                    old(self).keys().index_of(agent.name_spec()),
                    agent,
                )
            }),
            !old(self).keys().contains(agent.name_spec()) ==> ({
                &&& final(self).keys() == old(self).keys().push(agent.name_spec())
                &&& final(self).agents() == old(self).agents().push(agent)
            }),
    {
        let found = self.position(agent.name());
        let mut taken = AgentManager { names: Vec::new(), agents: Vec::new() };
        assert(taken.keys() =~= Seq::<Seq<char>>::empty());
        core::mem::swap(self, &mut taken);
        let AgentManager { mut names, mut agents } = taken;
        match found {
            Some(i) => {
                agents.set(i, agent);
            },
            None => {
                let name = agent.name().to_owned();
                names.push(name);
                agents.push(agent);
            },
        }
        let ghost keys = names@.map_values(|s: String| s@);
        assert(found is None ==> keys =~= old(self).keys().push(agent.name_spec()));
        *self = AgentManager { names, agents };
    }

    /// The agent registered under exactly `name`.
    pub fn get(&self, name: &str) -> (r: Option<&A>)
        ensures
            self.keys().no_duplicates(),
            self.keys().len() == self.agents().len(),
            (match r {
                Some(a) => self.lookup(name@) == Some(*a),
                None => self.lookup(name@) is None,
            }),
            self.names_match() ==> (r matches Some(a) ==> a.name_spec() == name@),
    {
        match self.position(name) {
            Some(i) => Some(&self.agents[i]),
            None => None,
        }
    }

    /// The agent registered under exactly `name`, for change in place. The
    /// registry keeps it under the key it was registered with.
    pub fn get_mut(&mut self, name: &str) -> (r: Option<&mut A>)
        ensures
            final(self).keys() == old(self).keys(),
            (match r {
                Some(a) => {
                    &&& old(self).lookup(name@) == Some(*a)
                    &&& final(self).agents() == old(self).agents().update(
                        old(self).keys().index_of(name@),
                        *final(a),
                    )
                },
                None => old(self).lookup(name@) is None && final(self).agents() == old(
                    self,
                ).agents(),
            }),
            old(self).names_match() && (r matches Some(a) ==> final(a).name_spec() == name@)
                ==> final(self).names_match(),
    {
        match self.position(name) {
            Some(i) => Some(&mut self.agents[i]),
            None => None,
        }
    }

    /// The default agent: the first registered, or `None` where the
    /// registry is empty.
    pub fn default_agent(&self) -> (r: Option<&A>)
        ensures
            (match r {
                Some(a) => self.first() == Some(*a),
                None => self.first() is None,
            }),
    {
        if self.agents.len() > 0 {
            Some(&self.agents[0])
        } else {
            None
        }
    }

    /// The agent that serves a routed name: the one registered under it,
    /// else the default agent. `None` only where the registry is empty.
    pub fn resolve(&self, name: &str) -> (r: Option<&A>)
        ensures
            (match r {
                Some(a) => self.resolved(name@) == Some(*a),
                None => self.resolved(name@) is None,
            }),
            r is None <==> self.agents().len() == 0,
    {
        match self.position(name) {
            Some(i) => Some(&self.agents[i]),
            None => self.default_agent(),
        }
    }

    /// Name and description of every registered agent, in the order of
    /// registration.
    pub fn list(&self) -> (r: Vec<AgentInfo>)
        ensures
            r@.len() == self.agents().len(),
            forall|i: int| 0 <= i < r@.len() ==> (#[trigger] r@[i])@ == info_of(self.agents()[i]),
            self.names_match() ==> forall|i: int, j: int|
                0 <= i < j < r@.len() ==> (#[trigger] r@[i])@.name != (#[trigger] r@[j])@.name,
    {
        proof {
            use_type_invariant(self);
        }
        let mut r: Vec<AgentInfo> = Vec::new();
        let mut i: usize = 0;
        while i < self.agents.len()
            invariant
                i <= self.agents.len(),
                r@.len() == i,
                forall|j: int| 0 <= j < i ==> (#[trigger] r@[j])@ == info_of(self.agents()[j]),
            decreases self.agents.len() - i,
        {
            let agent = &self.agents[i];
            r.push(
                AgentInfo {
                    name: agent.name().to_owned(),
                    description: agent.description().to_owned(),
                },
            );
            i += 1;
        }
        r
    }
}

impl<A: ChatAgent> Default for AgentManager<A> {
    fn default() -> (m: Self)
        ensures
            m.keys() == Seq::<Seq<char>>::empty(),
            m.agents() == Seq::<A>::empty(),
            m.names_match(),
    {
        AgentManager::new()
    }
}

} // verus!
