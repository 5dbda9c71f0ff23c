//! Client side of the seymour feed-aggregator line protocol: the typed
//! command and response vocabulary, its wire encoding, and the request/reply
//! state machine that drives each client operation.

pub mod codec;
pub mod laws;
pub mod protocol;
pub mod session;
