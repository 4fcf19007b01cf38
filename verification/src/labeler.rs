//! The agent that gives a new conversation its title.

use vstd::prelude::*;
use crate::agent::{Agent, ChatRequest};
use crate::agent;
use crate::message::Message;

verus! {

/// An agent whose reply to a user's first message is the conversation's
/// title.
#[derive(Debug)]
pub struct Labeler {
    agent: Agent,
}

impl Labeler {
    /// The agent that carries the model, the address and the persona.
    pub closed spec fn agent_spec(&self) -> Agent {
        self.agent
    }

    pub fn new(model: String, ollama_url: String, system_prompt: String) -> (l: Self)
        ensures
            l.agent_spec().model_spec() == model@,
            l.agent_spec().url_spec() == ollama_url@,
            l.agent_spec().prompt_spec() == system_prompt@,
    {
        let agent = Agent::new(model, ollama_url, system_prompt);
        Labeler { agent }
    }

    /// The request that asks for a title: the labeler's persona, then the
    /// message to label. The content of the reply is the title.
    pub fn label_conversation(&self, message: &Message) -> (r: ChatRequest)
        ensures
            r@ == self.agent_spec().request_spec(
                seq![agent::system_message_of(self.agent_spec().prompt_spec()), message@],
            ),
    {
        let mut messages: Vec<Message> = Vec::new();
        messages.push(self.agent.system_message());
        messages.push(message.clone());
        assert(crate::message::views(messages@) =~= seq![
            agent::system_message_of(self.agent_spec().prompt_spec()),
            message@,
        ]);
        self.agent.chat(messages.as_slice())
    }
}

} // verus!
