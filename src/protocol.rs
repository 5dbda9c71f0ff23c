//! The command and response vocabulary of the protocol, as plain values.
use vstd::prelude::*;

verus! {

/// A command sent by the client to the server.
#[derive(Debug, Clone, PartialEq, Eq)]
pub enum Command {
    User { username: String },
    ListUnread,
    ListSubscriptions,
    MarkRead { id: i64 },
}

/// A response line sent by the server.
#[derive(Debug, Clone, PartialEq, Eq)]
pub enum Response {
    AckUser { id: i64 },
    StartSubscriptionList,
    Subscription { id: i64, url: String },
    StartEntryList,
    Entry { id: i64, feed_id: i64, feed_url: String, title: String, url: String },
    EndList,
    AckSubscribe,
    AckUnsubscribe,
    AckMarkRead,
    ResourceNotFound(String),
    BadCommand(String),
    NeedUser(String),
    InternalError(String),
}

} // verus!
