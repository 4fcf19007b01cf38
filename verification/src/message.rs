//! Role-tagged messages, the unit of every conversation and of every exchange
//! with a text-generation backend.

use vstd::prelude::*;
use vstd::std_specs::convert::FromSpecImpl;

verus! {

/// One message: who speaks (`system`, `user` or `assistant`) and what is said.
#[derive(Debug)]
pub struct Message {
    pub role: String,
    pub content: String,
}

/// What a `Message` holds, as plain text.
pub struct MessageView {
    pub role: Seq<char>,
    pub content: Seq<char>,
}

impl View for Message {
    type V = MessageView;

    open spec fn view(&self) -> MessageView {
        MessageView { role: self.role@, content: self.content@ }
    }
}

/// The messages of a sequence, each as plain text.
pub open spec fn views(messages: Seq<Message>) -> Seq<MessageView> {
    messages.map_values(|m: Message| m@)
}

/// The line that shows a message to a reader: the role in square brackets,
/// a space, the content.
pub open spec fn message_line(m: MessageView) -> Seq<char> {
    "["@ + m.role + "] "@ + m.content
}

impl Clone for Message {
    fn clone(&self) -> (r: Self)
        ensures
            r@ == self@,
    {
        Message { role: self.role.clone(), content: self.content.clone() }
    }
}

impl Message {
    /// A message with the given role and content.
    pub fn new(role: &str, content: &str) -> (m: Self)
        ensures
            m@ == (MessageView { role: role@, content: content@ }),
    {
        Message { role: role.to_owned(), content: content.to_owned() }
    }

    /// The message as one line of text, `[role] content`.
    pub fn to_string(&self) -> (s: String)
        ensures
            s@ == message_line(self@),
    {
        let mut s = "[".to_owned();
        s.append(self.role.as_str());
        s.append("] ");
        s.append(self.content.as_str());
        s
    }
}

impl From<(String, String)> for Message {
    fn from(pair: (String, String)) -> (m: Self)
        ensures
            m.role == pair.0,
            m.content == pair.1,
    {
        Message { role: pair.0, content: pair.1 }
    }
}

impl FromSpecImpl<(String, String)> for Message {
    open spec fn obeys_from_spec() -> bool {
        true
    }

    open spec fn from_spec(pair: (String, String)) -> Self {
        Message { role: pair.0, content: pair.1 }
    }
}

/// From borrowed text: the first of the pair is the role, the second the
/// content, each as it is.
impl<'a> From<(&'a str, &'a str)> for Message {
    fn from(pair: (&'a str, &'a str)) -> (m: Self)
        ensures
            m@ == (MessageView { role: pair.0@, content: pair.1@ }),
    {
        Message::new(pair.0, pair.1)
    }
}

impl<'a> FromSpecImpl<(&'a str, &'a str)> for Message {
    /// No `String` can be named by its text alone, so the result is stated
    /// on `from` itself, by its view.
    open spec fn obeys_from_spec() -> bool {
        false
    }

    open spec fn from_spec(pair: (&'a str, &'a str)) -> Self {
        arbitrary()
    }
}

/// A copy of each message, in the same order.
pub fn clone_messages(messages: &[Message]) -> (r: Vec<Message>)
    ensures
        views(r@) == views(messages@),
{
    let mut r: Vec<Message> = Vec::new();
    let mut i: usize = 0;
    while i < messages.len()
        invariant
            i <= messages.len(),
            r.len() == i,
            forall|j: int| 0 <= j < i ==> r[j]@ == messages[j]@,
        decreases messages.len() - i,
    {
        r.push(messages[i].clone());
        i += 1;
    }
    assert(views(r@) =~= views(messages@));
    r
}

/// Makes messages. It holds no state: every message is made from the role and
/// the content handed in.
pub struct Drafter;

impl Default for Drafter {
    fn default() -> (d: Self)
        ensures
            d == Drafter,
    {
        Drafter
    }
}

impl Drafter {
    pub fn new() -> (d: Self)
        ensures
            d == Drafter,
    {
        Drafter
    }

    /// A message with the given role and content, unchanged.
    pub fn create_message(&self, role: String, content: String) -> (m: Message)
        ensures
            m.role == role,
            m.content == content,
    {
        Message { role, content }
    }
}

} // verus!
