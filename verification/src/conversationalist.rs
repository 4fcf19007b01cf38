//! The agent for general conversation.

use vstd::prelude::*;
use crate::agent::{Agent, ChatRequest, ChatRequestView};
use crate::agent;
use crate::chat_agent::ChatAgent;
use crate::message::{Message, MessageView};
use crate::message;

verus! {

/// An agent with a name and a description, for the registry to hold.
#[derive(Debug)]
pub struct Conversationalist {
    agent: Agent,
    name: String,
    description: String,
}

impl Conversationalist {
    /// The agent that carries the model, the address and the persona.
    pub closed spec fn agent_spec(&self) -> Agent {
        self.agent
    }

    pub fn new(
        model: String,
        ollama_url: String,
        system_prompt: String,
        name: String,
        description: String,
    ) -> (c: Self)
        ensures
            c.agent_spec().model_spec() == model@,
            c.agent_spec().url_spec() == ollama_url@,
            c.agent_spec().prompt_spec() == system_prompt@,
            c.name_spec() == name@,
            c.description_spec() == description@,
    {
        let agent = Agent::new(model, ollama_url, system_prompt);
        Conversationalist { agent, name, description }
    }

    pub fn model(&self) -> (r: &str)
        ensures
            r@ == self.agent_spec().model_spec(),
    {
        self.agent.model()
    }

    /// The address of the backend that serves this agent.
    pub fn url(&self) -> (r: &str)
        ensures
            r@ == self.agent_spec().url_spec(),
    {
        self.agent.url()
    }
}

impl ChatAgent for Conversationalist {
    closed spec fn name_spec(&self) -> Seq<char> {
        self.name@
    }

    closed spec fn description_spec(&self) -> Seq<char> {
        self.description@
    }

    open spec fn persona_spec(&self) -> MessageView {
        agent::system_message_of(self.agent_spec().prompt_spec())
    }

    open spec fn request_spec(&self, messages: Seq<MessageView>) -> ChatRequestView {
        self.agent_spec().request_spec(messages)
    }

    fn name(&self) -> (r: &str) {
        self.name.as_str()
    }

    fn description(&self) -> (r: &str) {
        self.description.as_str()
    }

    fn system_message(&self) -> (m: Message) {
        self.agent.system_message()
    }

    fn chat(&self, messages: &[Message]) -> (r: ChatRequest) {
        self.agent.chat(messages)
    }
}

} // verus!
