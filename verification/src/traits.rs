//! Behaviour that workers share: storing conversations, having a name and a
//! description, going back to the initial state.

use vstd::prelude::*;
use crate::conversation::Conversation;

verus! {

/// Why a store could not save, load or list.
#[derive(Debug)]
pub struct StorageError {
    pub message: String,
}

/// A store of conversations, keyed by what it derives from their titles.
/// Whether an operation succeeds is the store's affair: callers are told
/// the outcome and promised nothing about it.
pub trait Storage {
    /// Saves a conversation.
    fn save(&self, conversation: &Conversation) -> (r: Result<(), StorageError>);

    /// Loads the conversation stored under an identifier.
    fn load(&self, identifier: &str) -> (r: Result<Conversation, StorageError>);

    /// The identifiers of all stored conversations.
    fn list(&self) -> (r: Result<Vec<String>, StorageError>);
}

/// Anything that has a name.
pub trait Named {
    fn name(&self) -> (r: &str);
}

/// Anything that has a name and a description.
pub trait Described: Named {
    fn description(&self) -> (r: &str);
}

/// Anything that can go back to its initial state.
pub trait Resettable {
    fn reset(&mut self);
}

} // verus!
