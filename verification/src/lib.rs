//! A single-conversation chat engine: hash-chained immutable messages,
//! a content-addressed store protocol, history reconstruction by parent
//! links, and the session state machine that sequences a turn.
pub mod channel;
pub mod codec;
pub mod completion;
pub mod history;
pub mod message;
pub mod model;
pub mod orchestrator;
pub mod store;

