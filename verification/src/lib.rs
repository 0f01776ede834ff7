//! Core logic of a group-chat bot that buffers recent message texts and,
//! under a trigger condition, forwards them to a chat-completion service
//! and relays the reply.
//!
//! This crate holds only the decision logic: the bounded conversation
//! buffer, the reply-trigger policies, and the construction of the
//! completion request. All I/O (the bot framework's dispatch loop, the
//! HTTP transport to the completion service, the random draw) lives in
//! the surrounding binary, which hands plain values in and takes plain
//! values back.

pub mod handler;
pub mod policy;
pub mod request;
pub mod store;

pub use handler::handle_incoming;
pub use policy::TriggerPolicy;
pub use policy::contains_token;
pub use policy::REPLY_THRESHOLD;
pub use request::build_request;
pub use request::first_choice_content;
pub use request::reply_for_outcome;
pub use request::ChatMessage;
pub use request::ChatRequest;
pub use request::CompletionError;
pub use request::Role;
pub use request::MAX_REPLY_TOKENS;
pub use request::MODEL_NAME;
pub use store::ConversationStore;
