//! The capabilities that every chat-capable agent offers to the registry and
//! to the refinement loop.

use vstd::prelude::*;
use crate::agent::{ChatRequest, ChatRequestView};
use crate::message::{Message, MessageView};
use crate::message;

verus! {

/// An agent that the registry can hold and a turn can address. Agents are
/// stateless: a chat is built from the messages handed in, and the
/// conversation stays with the caller.
///
/// An implementation answers for the contracts below: what `name`,
/// `description`, `system_message` and `chat` return is what the spec
/// functions say.
pub trait ChatAgent {
    /// The agent's identifier, by which requests are routed to it.
    spec fn name_spec(&self) -> Seq<char>;

    /// What the agent is for, in a sentence.
    spec fn description_spec(&self) -> Seq<char>;

    /// The message that sets up the agent's persona.
    spec fn persona_spec(&self) -> MessageView;

    /// The request that a chat over the given messages sends.
    spec fn request_spec(&self, messages: Seq<MessageView>) -> ChatRequestView;

    fn name(&self) -> (r: &str)
        ensures
            r@ == self.name_spec(),
    ;

    fn description(&self) -> (r: &str)
        ensures
            r@ == self.description_spec(),
    ;

    fn system_message(&self) -> (m: Message)
        ensures
            m@ == self.persona_spec(),
    ;

    /// Builds the request for one chat over `messages`, which go out
    /// unchanged and in order. Sending it is the caller's part.
    fn chat(&self, messages: &[Message]) -> (r: ChatRequest)
        ensures
            r@ == self.request_spec(message::views(messages@)),
            r@.messages == message::views(messages@),
    ;
}

} // verus!
