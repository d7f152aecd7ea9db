//! A typed model of a streamed chat-completion API, centred on the bridge
//! that turns a live sequence of server-sent events into an ordered sequence
//! of decoded partial results for a downstream consumer.

pub mod chat;
pub mod bridge;
pub mod laws;
