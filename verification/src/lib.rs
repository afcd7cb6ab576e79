//! A small message-ingestion library: a concurrency-friendly, append-only
//! mailbox of messages received from a publish/subscribe bus, the state
//! machine of the background task that feeds it, the connection-target
//! decision made at startup, and the plain-text reports the HTTP surface
//! serves about the mailbox and its sibling endpoints.

pub mod bootstrap;
pub mod decimal;
pub mod mailbox;
pub mod message;
pub mod report;
pub mod subscriber;
