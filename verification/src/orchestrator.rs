//! The orchestrator: the agent that routes a request to one of the known
//! agents and judges whether a response completes the request.

use vstd::prelude::*;
use crate::agent::{Agent, ChatRequest};
use crate::agent;
use crate::agent_manager::{AgentInfo, AgentInfoView};
use crate::decision::OrchestratorDecision;
use crate::decision;
use crate::message::{Message, MessageView};
use crate::message;
use crate::text;

verus! {

/// The agents that the router may choose from, its own persona, and the cap
/// on refinements per turn.
pub struct Orchestrator {
    agent: Agent,
    available_agents: Vec<AgentInfo>,
    max_iterations: usize,
}

/// The opening of the orchestrator's persona, up to the list of agents.
pub open spec fn prompt_head() -> Seq<char> {
    "You are an orchestrator that routes user requests and evaluates responses.\n\nAvailable agents:\n"@
}

/// The rest of the orchestrator's persona, behind the list of agents.
pub open spec fn prompt_tail() -> Seq<char> {
    "\n\nYou have two jobs:\n\n1. ROUTING: When given a user request (no response yet), decide which agent should handle it.\n   Reply with just the agent name, nothing else.\n\n2. EVALUATING: When given a request AND a response, decide if the request is complete.\n   Reply with either:\n   - \"complete\" if the response fully addresses the request\n   - \"incomplete: <reason>\" if more work is needed\n\nBe concise. One word for routing, one line for evaluation."@
}

/// The bullet that presents one agent: `- name: description`.
pub open spec fn agent_line(info: AgentInfoView) -> Seq<char> {
    "- "@ + info.name + ": "@ + info.description
}

/// The bullets of all agents, one per line, with no newline at the end.
pub open spec fn agent_lines(agents: Seq<AgentInfoView>) -> Seq<char>
    decreases agents.len(),
{
    if agents.len() == 0 {
        Seq::<char>::empty()
    } else if agents.len() == 1 {
        agent_line(agents[0])
    } else {
        agent_lines(agents.drop_last()) + "\n"@ + agent_line(agents.last())
    }
}

/// The orchestrator's persona for the given agents.
pub open spec fn prompt_of(agents: Seq<AgentInfoView>) -> Seq<char> {
    prompt_head() + agent_lines(agents) + prompt_tail()
}

/// The agents of a list, each as plain text.
pub open spec fn infos(agents: Seq<AgentInfo>) -> Seq<AgentInfoView> {
    agents.map_values(|a: AgentInfo| a@)
}

/// The names of the agents, in order.
pub open spec fn names_of(agents: Seq<AgentInfoView>) -> Seq<Seq<char>> {
    agents.map_values(|a: AgentInfoView| a.name)
}

/// The names in lowercase, in order.
pub open spec fn lowered(names: Seq<Seq<char>>) -> Seq<Seq<char>> {
    names.map_values(|name: Seq<char>| text::lowercase_of(name))
}

/// The name that stands for the agent of last resort.
pub open spec fn last_resort() -> Seq<char> {
    "conversationalist"@
}

/// The choice among `known` names that a normalized reply stands for: the
/// reply itself where it is one of them, else the fallback, else the agent
/// of last resort.
pub open spec fn pick_of(choice: Seq<char>, known: Seq<Seq<char>>, fallback: Option<Seq<char>>) -> Seq<
    char,
> {
    if known.contains(choice) {
        choice
    } else {
        match fallback {
            Some(name) => name,
            None => last_resort(),
        }
    }
}

/// The name of the first agent, if there is one.
pub open spec fn first_name(names: Seq<Seq<char>>) -> Option<Seq<char>> {
    if names.len() > 0 {
        Some(names[0])
    } else {
        None
    }
}

/// The agent that a normalized reply routes to, given the agents' names: the
/// reply where it equals a name in lowercase; else the first name; else
/// the agent of last resort.
pub open spec fn route_of(choice: Seq<char>, names: Seq<Seq<char>>) -> Seq<char> {
    pick_of(choice, lowered(names), first_name(names))
}

/// What the router is sent: the persona of the orchestrator's agent as a
/// system message, then the conversation's messages in their order.
pub open spec fn routing_messages(agent: Agent, history: Seq<MessageView>) -> Seq<MessageView> {
    seq![agent::system_message_of(agent.prompt_spec())] + history
}

/// The question put to the evaluator about one request and one response.
pub open spec fn evaluation_question(request: Seq<char>, response: Seq<char>) -> MessageView {
    MessageView {
        role: "user"@,
        content: "Original request: "@ + request + "\n\nResponse: "@ + response
            + "\n\nIs this complete?"@,
    }
}

/// The follow-up put to an agent whose response needs more work.
pub open spec fn follow_up_of(reason: Seq<char>) -> MessageView {
    MessageView {
        role: "user"@,
        content: "Please elaborate on your previous response. The issue: "@ + reason,
    }
}

/// Decides between a normalized reply, the known names and a fallback.
pub fn pick(choice: String, known: &[String], fallback: Option<&str>) -> (r: String)
    ensures
        r@ == pick_of(
            choice@,
            known@.map_values(|s: String| s@),
            match fallback {
                Some(name) => Some(name@),
                None => None,
            },
        ),
{
    let ghost texts = known@.map_values(|s: String| s@);
    let mut i: usize = 0;
    while i < known.len()
        invariant
            i <= known.len(),
            texts == known@.map_values(|s: String| s@),
            forall|j: int| 0 <= j < i ==> texts[j] != choice@,
        decreases known.len() - i,
    {
        if known[i] == choice {
            assert(texts[i as int] == choice@);
            return choice;
        }
        i += 1;
    }
    match fallback {
        Some(name) => name.to_owned(),
        None => "conversationalist".to_owned(),
    }
}

/// The follow-up message for a response that needs more work.
pub fn follow_up(reason: &str) -> (m: Message)
    ensures
        m@ == follow_up_of(reason@),
{
    let mut content = "Please elaborate on your previous response. The issue: ".to_owned();
    content.append(reason);
    Message { role: "user".to_owned(), content }
}

impl Orchestrator {
    /// The agent that speaks for the orchestrator.
    pub closed spec fn agent_spec(&self) -> Agent {
        self.agent
    }

    /// The agents that the router may choose from.
    pub closed spec fn agents_spec(&self) -> Seq<AgentInfoView> {
        infos(self.available_agents@)
    }

    /// The cap on refinements per turn.
    pub closed spec fn max_spec(&self) -> usize {
        self.max_iterations
    }

    /// An orchestrator for the given agents. Its persona lists them, one
    /// bullet each, between the fixed opening and the fixed instructions.
    pub fn new(model: String, ollama_url: String, agents: Vec<AgentInfo>, max_iterations: usize) -> (o:
        Self)
        ensures
            o.agent_spec().model_spec() == model@,
            o.agent_spec().url_spec() == ollama_url@,
            o.agent_spec().prompt_spec() == prompt_of(infos(agents@)),
            o.agents_spec() == infos(agents@),
            o.max_spec() == max_iterations,
    {
        let mut prompt =
            "You are an orchestrator that routes user requests and evaluates responses.\n\nAvailable agents:\n".to_owned();
        let ghost all = infos(agents@);
        let mut i: usize = 0;
        while i < agents.len()
            invariant
                i <= agents.len(),
                all == infos(agents@),
                prompt@ == prompt_head() + agent_lines(all.take(i as int)),
            decreases agents.len() - i,
        {
            if i > 0 {
                prompt.append("\n");
            }
            prompt.append("- ");
            prompt.append(agents[i].name.as_str());
            prompt.append(": ");
            prompt.append(agents[i].description.as_str());
            proof {
                let next = all.take(i + 1);
                assert(next.drop_last() =~= all.take(i as int));
                assert(next.last() == agents[i as int]@);
                assert(prompt@ =~= prompt_head() + agent_lines(next));
            }
            i += 1;
        }
        assert(all.take(i as int) =~= all);
        prompt.append(
            "\n\nYou have two jobs:\n\n1. ROUTING: When given a user request (no response yet), decide which agent should handle it.\n   Reply with just the agent name, nothing else.\n\n2. EVALUATING: When given a request AND a response, decide if the request is complete.\n   Reply with either:\n   - \"complete\" if the response fully addresses the request\n   - \"incomplete: <reason>\" if more work is needed\n\nBe concise. One word for routing, one line for evaluation.",
        );
        Orchestrator {
            agent: Agent::new(model, ollama_url, prompt),
            available_agents: agents,
            max_iterations,
        }
    }

    pub fn max_iterations(&self) -> (n: usize)
        ensures
            n == self.max_spec(),
    {
        self.max_iterations
    }

    /// The request that asks the router which agent should take the
    /// conversation: the orchestrator's persona, then the conversation's
    /// messages in their order.
    pub fn routing_request(&self, messages: &[Message]) -> (r: ChatRequest)
        ensures
            r@ == self.agent_spec().request_spec(
                routing_messages(self.agent_spec(), message::views(messages@)),
            ),
    {
        let mut all: Vec<Message> = Vec::new();
        all.push(self.agent.system_message());
        let mut i: usize = 0;
        while i < messages.len()
            invariant
                i <= messages.len(),
                all@.len() == i + 1,
                all@[0]@ == agent::system_message_of(self.agent_spec().prompt_spec()),
                forall|j: int| 0 <= j < i ==> (#[trigger] all@[j + 1])@ == messages@[j]@,
            decreases messages.len() - i,
        {
            all.push(messages[i].clone());
            i += 1;
        }
        assert(message::views(all@) =~= routing_messages(
            self.agent_spec(),
            message::views(messages@),
        )) by {
            assert forall|k: int| 0 <= k < all@.len() implies message::views(all@)[k]
                == routing_messages(self.agent_spec(), message::views(messages@))[k] by {
                if k > 0 {
                    assert(all@[(k - 1) + 1]@ == messages@[k - 1]@);
                }
            }
        }
        self.agent.chat(all.as_slice())
    }

    /// Reads the router's reply. The reply is trimmed and lowercased; where
    /// it then equals the lowercase name of a known agent, it is the choice.
    /// Else the choice falls back to the first known agent, and without any
    /// to `conversationalist`.
    pub fn route(&self, reply: &str) -> (r: String)
        ensures
            r@ == route_of(text::normalized(reply@), names_of(self.agents_spec())),
    {
        let choice = text::to_lowercase(text::trim(reply));
        let ghost names = names_of(self.agents_spec());
        let mut known: Vec<String> = Vec::new();
        let mut i: usize = 0;
        while i < self.available_agents.len()
            invariant
                i <= self.available_agents.len(),
                names == names_of(self.agents_spec()),
                names.len() == self.available_agents.len(),
                known@.len() == i,
                forall|j: int| 0 <= j < i ==> (#[trigger] known@[j])@ == text::lowercase_of(names[j]),
            decreases self.available_agents.len() - i,
        {
            known.push(text::to_lowercase(self.available_agents[i].name.as_str()));
            i += 1;
        }
        assert(known@.map_values(|s: String| s@) =~= lowered(names));
        let fallback = if self.available_agents.len() > 0 {
            Some(self.available_agents[0].name.as_str())
        } else {
            None
        };
        pick(choice, known.as_slice(), fallback)
    }

    /// The request that asks the evaluator whether `response` completes
    /// `original_request`: the orchestrator's persona, then the question.
    /// The conversation is not part of it.
    pub fn evaluation_request(&self, original_request: &str, response: &str) -> (r: ChatRequest)
        ensures
            r@ == self.agent_spec().request_spec(
                seq![
                    agent::system_message_of(self.agent_spec().prompt_spec()),
                    evaluation_question(original_request@, response@),
                ],
            ),
    {
        let mut content = "Original request: ".to_owned();
        content.append(original_request);
        content.append("\n\nResponse: ");
        content.append(response);
        content.append("\n\nIs this complete?");
        let question = Message { role: "user".to_owned(), content };
        let mut messages: Vec<Message> = Vec::new();
        messages.push(self.agent.system_message());
        messages.push(question);
        assert(message::views(messages@) =~= seq![
            agent::system_message_of(self.agent_spec().prompt_spec()),
            evaluation_question(original_request@, response@),
        ]);
        self.agent.chat(messages.as_slice())
    }

    /// Reads the evaluator's reply. The reply is trimmed and lowercased;
    /// `complete...` is `Complete`, `incomplete...` is `NeedsMoreWork` with
    /// the reason behind `incomplete:`, and anything else is `Complete`.
    pub fn evaluate(&self, reply: &str) -> (d: OrchestratorDecision)
        ensures
            d@ == decision::decision_of(text::normalized(reply@)),
    {
        OrchestratorDecision::from_reply(reply)
    }
}

/// A reply that names a known agent, in whatever case the agent's name is
/// written, routes to that reply.
pub proof fn lemma_route_known(choice: Seq<char>, names: Seq<Seq<char>>, i: int)
    requires
        0 <= i < names.len(),
        text::lowercase_of(names[i]) == choice,
    ensures
        route_of(choice, names) == choice,
{
    assert(lowered(names)[i] == choice);
}

/// Routing falls back: a reply that is the lowercase of no known name
/// routes to the first known agent, and without any to `conversationalist`.
pub proof fn lemma_route_falls_back(choice: Seq<char>, names: Seq<Seq<char>>)
    requires
        forall|i: int| 0 <= i < names.len() ==> text::lowercase_of(#[trigger] names[i]) != choice,
    ensures
        names.len() > 0 ==> route_of(choice, names) == names[0],
        names.len() == 0 ==> route_of(choice, names) == last_resort(),
{
    assert(!lowered(names).contains(choice)) by {
        if lowered(names).contains(choice) {
            let i = choose|i: int| 0 <= i < lowered(names).len() && lowered(names)[i] == choice;
            assert(text::lowercase_of(names[i]) == choice);
        }
    }
}

} // verus!
