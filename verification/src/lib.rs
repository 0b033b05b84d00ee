//! A verified model of a chat client that bridges a hosted chat model with a
//! single external tool-provider process.
//!
//! The library holds the decision logic: the connection state machine of the
//! tool bridge, the translation of discovered tool descriptors into the chat
//! schema, and the conversation driver that turns user input and model
//! responses into the next action (query the model, invoke a tool, show text,
//! stop). The surrounding process management and network I/O live outside the
//! library and feed it plain events.

pub mod bridge;
pub mod driver;
pub mod json;
pub mod laws;
pub mod text;
pub mod tools;
