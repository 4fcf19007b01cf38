//! A conversation: a title and the messages exchanged so far, in order.
//! Messages are only ever appended.

use vstd::prelude::*;
use crate::message::{Message, MessageView};
use crate::message;

verus! {

/// A titled, ordered list of messages. The first message is the persona
/// that the conversation was started with.
#[derive(Debug)]
pub struct Conversation {
    pub title: String,
    pub messages: Vec<Message>,
}

/// A `Conversation` as plain values.
pub struct ConversationView {
    pub title: Seq<char>,
    pub messages: Seq<MessageView>,
}

impl View for Conversation {
    type V = ConversationView;

    open spec fn view(&self) -> ConversationView {
        ConversationView { title: self.title@, messages: message::views(self.messages@) }
    }
}

/// The heading of a conversation's transcript.
pub open spec fn heading(title: Seq<char>) -> Seq<char> {
    "=== "@ + title + " ===\n"@
}

/// The transcript's body: each message on a line of its own, in order.
pub open spec fn body(messages: Seq<MessageView>) -> Seq<char>
    decreases messages.len(),
{
    if messages.len() == 0 {
        Seq::<char>::empty()
    } else {
        body(messages.drop_last()) + message::message_line(messages.last()) + "\n"@
    }
}

/// The transcript of a conversation: the heading, then the body.
pub open spec fn transcript(c: ConversationView) -> Seq<char> {
    heading(c.title) + body(c.messages)
}

impl Conversation {
    /// A conversation that holds the persona message and nothing else.
    pub fn new(title: String, system_message: Message) -> (c: Self)
        ensures
            c@.title == title@,
            c@.messages == seq![system_message@],
    {
        let mut messages: Vec<Message> = Vec::new();
        messages.push(system_message);
        let c = Conversation { title, messages };
        assert(c@.messages =~= seq![system_message@]);
        c
    }

    /// Appends `message`. Nothing that was there changes.
    pub fn add_message(&mut self, message: Message)
        ensures
            final(self)@.title == old(self)@.title,
            final(self)@.messages == old(self)@.messages.push(message@),
    {
        self.messages.push(message);
        assert(self@.messages =~= old(self)@.messages.push(message@));
    }

    /// The conversation as text: the title between `===` marks, then each
    /// message as `[role] content`, every line closed by a newline.
    pub fn to_string(&self) -> (s: String)
        ensures
            s@ == transcript(self@),
    {
        let mut s = "=== ".to_owned();
        s.append(self.title.as_str());
        s.append(" ===\n");
        let ghost head = s@;
        let mut i: usize = 0;
        while i < self.messages.len()
            invariant
                i <= self.messages.len(),
                head == heading(self@.title),
                s@ == head + body(self@.messages.take(i as int)),
            decreases self.messages.len() - i,
        {
            let line = self.messages[i].to_string();
            s.append(line.as_str());
            s.append("\n");
            proof {
                let next = self@.messages.take(i + 1);
                assert(next.drop_last() =~= self@.messages.take(i as int));
                assert(next.last() == self.messages[i as int]@);
                assert(s@ =~= head + body(next));
            }
            i += 1;
        }
        assert(self@.messages.take(i as int) =~= self@.messages);
        s
    }
}

} // verus!
