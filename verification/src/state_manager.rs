//! The holder of the current conversation, which saves it after every
//! change.

use vstd::prelude::*;
use crate::conversation::{Conversation, ConversationView};
use crate::message::Message;
use crate::traits::{Resettable, Storage, StorageError};

verus! {

/// The current conversation, if one was started, and the store that it is
/// saved to.
pub struct StateManager<S: Storage> {
    conversation: Option<Conversation>,
    archivist: S,
}

/// What a conversation holds after `message` was appended; no conversation
/// stays none.
pub open spec fn appended(c: Option<ConversationView>, message: crate::message::MessageView) -> Option<
    ConversationView,
> {
    match c {
        Some(c) => Some(ConversationView { title: c.title, messages: c.messages.push(message) }),
        None => None,
    }
}

impl<S: Storage> StateManager<S> {
    /// The current conversation, as it is handed to the store.
    pub closed spec fn held(&self) -> Option<Conversation> {
        self.conversation
    }

    /// The current conversation, as plain values.
    pub open spec fn current(&self) -> Option<ConversationView> {
        match self.held() {
            Some(c) => Some(c@),
            None => None,
        }
    }

    /// The store.
    pub closed spec fn store(&self) -> S {
        self.archivist
    }

    /// Whether `outcome` is what the store answered, or could answer, to
    /// saving the current conversation as it stands. Without a
    /// conversation there is nothing to save.
    pub open spec fn save_outcome(&self, outcome: Result<(), StorageError>) -> bool {
        match self.held() {
            Some(c) => call_ensures(S::save, (&self.store(), &c), outcome),
            None => outcome is Ok,
        }
    }

    /// Whether the store took the current conversation as it stands.
    pub open spec fn stored(&self) -> bool {
        self.save_outcome(Ok(()))
    }

    /// Whether the store took a conversation that held exactly `c`.
    pub open spec fn stored_as(&self, c: ConversationView) -> bool {
        exists|held: Conversation|
            held@ == c && #[trigger] call_ensures(S::save, (&self.store(), &held), Ok(()))
    }

    /// A manager without a conversation.
    pub fn new(archivist: S) -> (m: Self)
        ensures
            m.current() is None,
            m.store() == archivist,
    {
        StateManager { conversation: None, archivist }
    }

    pub fn has_conversation(&self) -> (b: bool)
        ensures
            b == self.current() is Some,
    {
        self.conversation.is_some()
    }

    /// Starts a conversation that holds the persona message, in place of
    /// the current one if there is one. Nothing is saved yet.
    pub fn start_conversation(&mut self, title: String, system_message: Message)
        ensures
            final(self).current() == Some(
                ConversationView { title: title@, messages: seq![system_message@] },
            ),
            final(self).store() == old(self).store(),
    {
        self.conversation = Some(Conversation::new(title, system_message));
    }

    /// The current conversation.
    pub fn conversation(&self) -> (r: Option<&Conversation>)
        ensures
            (match r {
                Some(c) => self.current() == Some(c@),
                None => self.current() is None,
            }),
    {
        self.conversation.as_ref()
    }

    /// The current conversation, for change in place.
    pub fn conversation_mut(&mut self) -> (r: Option<&mut Conversation>)
        ensures
            final(self).store() == old(self).store(),
            (match r {
                Some(c) => old(self).current() == Some(c@) && final(self).current() == Some(
                    final(c)@,
                ),
                None => old(self).current() is None && final(self).current() is None,
            }),
    {
        self.conversation.as_mut()
    }

    /// Saves the current conversation to the store, which is handed the
    /// conversation as it stands and whose answer comes back. Without a
    /// conversation there is nothing to save, and that is a success.
    pub fn save(&self) -> (r: Result<(), StorageError>)
        ensures
            self.save_outcome(r),
            r is Ok ==> self.stored(),
    {
        let r = match &self.conversation {
            Some(conversation) => self.archivist.save(conversation),
            None => Ok(()),
        };
        proof {
            if r is Ok {
                assert(r->Ok_0 == ());
                assert(r == Ok::<(), StorageError>(()));
            }
        }
        r
    }

    /// Appends `message` to the current conversation and saves it: the
    /// store is handed the conversation with the message in it, and its
    /// answer comes back. The message is appended whether or not the store
    /// then fails. Without a conversation nothing happens, and that is a
    /// success.
    pub fn add_message(&mut self, message: Message) -> (r: Result<(), StorageError>)
        ensures
            final(self).current() == appended(old(self).current(), message@),
            final(self).store() == old(self).store(),
            final(self).save_outcome(r),
            r is Ok ==> final(self).stored(),
    {
        match &mut self.conversation {
            Some(conversation) => {
                conversation.add_message(message);
            },
            None => {},
        }
        self.save()
    }
}

impl<S: Storage> Resettable for StateManager<S> {
    /// Drops the current conversation. The store and what it holds stay.
    fn reset(&mut self)
        ensures
            final(self).current() is None,
            final(self).store() == old(self).store(),
    {
        self.conversation = None;
    }
}

} // verus!
