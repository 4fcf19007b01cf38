//! An agent: one backend model behind one address, with a fixed persona.
//! It keeps no conversation: every request is built from the messages
//! handed in.

use vstd::prelude::*;
use crate::message::{clone_messages, Message, MessageView};
use crate::message;

verus! {

/// What is sent to a text-generation backend for one chat: the address, the
/// model, the messages in order, and whether the reply is to be streamed.
#[derive(Debug)]
pub struct ChatRequest {
    pub url: String,
    pub model: String,
    pub messages: Vec<Message>,
    pub stream: bool,
}

/// A `ChatRequest` as plain values.
pub struct ChatRequestView {
    pub url: Seq<char>,
    pub model: Seq<char>,
    pub messages: Seq<MessageView>,
    pub stream: bool,
}

impl View for ChatRequest {
    type V = ChatRequestView;

    open spec fn view(&self) -> ChatRequestView {
        ChatRequestView {
            url: self.url@,
            model: self.model@,
            messages: message::views(self.messages@),
            stream: self.stream,
        }
    }
}

/// A model identifier, a backend address and a persona.
#[derive(Debug)]
pub struct Agent {
    model: String,
    ollama_url: String,
    system_prompt: String,
}

/// The message that opens a conversation with the given persona.
pub open spec fn system_message_of(prompt: Seq<char>) -> MessageView {
    MessageView { role: "system"@, content: prompt }
}

impl Agent {
    pub closed spec fn model_spec(&self) -> Seq<char> {
        self.model@
    }

    pub closed spec fn url_spec(&self) -> Seq<char> {
        self.ollama_url@
    }

    pub closed spec fn prompt_spec(&self) -> Seq<char> {
        self.system_prompt@
    }

    /// The request that a chat of this agent over `messages` sends: the
    /// messages unchanged and in order, under the agent's model, not streamed.
    pub open spec fn request_spec(&self, messages: Seq<MessageView>) -> ChatRequestView {
        ChatRequestView {
            url: self.url_spec(),
            model: self.model_spec(),
            messages: messages,
            stream: false,
        }
    }

    pub fn new(model: String, ollama_url: String, system_prompt: String) -> (a: Self)
        ensures
            a.model_spec() == model@,
            a.url_spec() == ollama_url@,
            a.prompt_spec() == system_prompt@,
    {
        Agent { model, ollama_url, system_prompt }
    }

    pub fn model(&self) -> (r: &str)
        ensures
            r@ == self.model_spec(),
    {
        self.model.as_str()
    }

    /// The address of the backend that serves this agent.
    pub fn url(&self) -> (r: &str)
        ensures
            r@ == self.url_spec(),
    {
        self.ollama_url.as_str()
    }

    /// The persona as a message of role `system`.
    pub fn system_message(&self) -> (m: Message)
        ensures
            m@ == system_message_of(self.prompt_spec()),
    {
        Message { role: "system".to_owned(), content: self.system_prompt.clone() }
    }

    /// Builds the request for one chat over `messages`. Sending it and
    /// decoding the reply is the caller's part.
    pub fn chat(&self, messages: &[Message]) -> (r: ChatRequest)
        ensures
            r@ == self.request_spec(message::views(messages@)),
    {
        ChatRequest {
            url: self.ollama_url.clone(),
            model: self.model.clone(),
            messages: clone_messages(messages),
            stream: false,
        }
    }
}

} // verus!
