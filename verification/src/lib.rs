//! A single node of a line-delimited JSON messaging protocol: the message
//! model, the unique-identifier format, and the request/reply state machine.

pub mod clock;
pub mod ident;
pub mod json;
pub mod message;
pub mod node;
pub mod outbox;
pub mod wire;
