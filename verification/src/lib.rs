//! A conversational assistant's orchestration core: routing a request to one of
//! several agents, judging whether a response completes the request, and the
//! bounded refinement loop that ties the two together.

pub mod text;
pub mod message;
pub mod decision;
pub mod agent;
pub mod chat_agent;
pub mod conversationalist;
pub mod agent_manager;
pub mod conversation;
pub mod traits;
pub mod state_manager;
pub mod archivist;
pub mod orchestrator;
pub mod labeler;
pub mod command;
pub mod turn;
pub mod turn_proofs;
