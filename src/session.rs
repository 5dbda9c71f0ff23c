//! The request/reply state machine of one client session.
//!
//! A session is a value that is fed the server's responses one at a time and
//! answers each with the next [`Action`]: a command to send, another response
//! to read, or the end of the session. The caller owns the connection and
//! performs the actions; nothing here waits on I/O.
use vstd::prelude::*;
use vstd::string::*;

use crate::codec::{decode, parsed_response};
use crate::protocol::{Command, Response};

verus! {

/// The listing a session performs once the user is acknowledged.
#[derive(Debug, Clone, Copy, PartialEq, Eq, Structural)]
pub enum Operation {
    /// List unread entries, then mark each as read unless `mark_read` is off.
    Unread { mark_read: bool },
    /// List the user's subscriptions.
    ListSubscriptions,
}

/// Where a session stands.
#[derive(Debug, Clone, Copy, PartialEq, Eq, Structural)]
pub enum Phase {
    /// `User` was sent; `AckUser` is awaited.
    AwaitAckUser,
    /// The list command was sent; the list's start delimiter is awaited.
    AwaitListStart,
    /// Items of the list, or `EndList`, are awaited.
    Listing,
    /// `MarkRead` for the entry at `next` was sent; `AckMarkRead` is awaited.
    Marking { next: usize },
    /// The operation completed.
    Done,
    /// A response broke the protocol, or none could be read.
    Failed,
}

/// The response, or responses, a session was waiting for.
#[derive(Debug, Clone, Copy, PartialEq, Eq, Structural)]
pub enum Expected {
    AckUser,
    StartEntryList,
    StartSubscriptionList,
    EntryOrEndList,
    SubscriptionOrEndList,
    AckMarkRead,
}

/// Why a session failed.
#[derive(Debug, Clone, PartialEq, Eq)]
pub enum SessionError {
    /// The stream ended before a full line was available.
    ConnectionClosed,
    /// A received line follows no response grammar.
    ParseError { line: String },
    /// A well-formed response that the current step does not allow.
    ProtocolViolation { expected: Expected, received: Response },
}

/// What the caller does next.
#[derive(Debug, Clone, PartialEq, Eq)]
pub enum Action {
    /// Write this command, then read one response and hand it over.
    Send(Command),
    /// Read one more response and hand it over.
    Receive,
    /// The operation completed; its result is ready.
    Finish,
    /// The session failed; nothing more is sent.
    Abort(SessionError),
    /// The session is already over; nothing is to be done.
    Idle,
}

/// An unread feed entry, as listed.
#[derive(Debug, Clone, PartialEq, Eq)]
pub struct Entry {
    pub id: i64,
    /// The feed's URL, `/`, and the entry's URL.
    pub full_url: String,
    pub title: String,
}

pub struct EntryView {
    pub id: i64,
    pub full_url: Seq<char>,
    pub title: Seq<char>,
}

impl View for Entry {
    type V = EntryView;

    open spec fn view(&self) -> EntryView {
        EntryView { id: self.id, full_url: self.full_url@, title: self.title@ }
    }
}

/// A feed the user follows.
#[derive(Debug, Clone, PartialEq, Eq)]
pub struct Subscription {
    pub id: i64,
    pub url: String,
}

pub struct SubscriptionView {
    pub id: i64,
    pub url: Seq<char>,
}

impl View for Subscription {
    type V = SubscriptionView;

    open spec fn view(&self) -> SubscriptionView {
        SubscriptionView { id: self.id, url: self.url@ }
    }
}

/// The abstract state of a session.
pub struct SessionView {
    pub op: Operation,
    pub phase: Phase,
    pub entries: Seq<EntryView>,
    pub subscriptions: Seq<SubscriptionView>,
}

impl SessionView {
    /// A mark-read step always points at a collected entry, and only
    /// happens where marking was asked for.
    pub open spec fn wf(self) -> bool {
        match self.phase {
            Phase::Marking { next } => next < self.entries.len() && self.op == (Operation::Unread {
                mark_read: true,
            }),
            _ => true,
        }
    }

    pub open spec fn is_over(self) -> bool {
        self.phase is Done || self.phase is Failed
    }
}

/// The state right after `User` was sent.
pub open spec fn initial(op: Operation) -> SessionView {
    SessionView { op, phase: Phase::AwaitAckUser, entries: seq![], subscriptions: seq![] }
}

/// The record an `Entry` response yields.
pub open spec fn entry_of(r: Response) -> EntryView {
    match r {
        Response::Entry { id, feed_url, url, title, .. } => EntryView {
            id,
            full_url: feed_url@ + seq!['/'] + url@,
            title: title@,
        },
        _ => EntryView { id: 0, full_url: seq![], title: seq![] },
    }
}

/// The record a `Subscription` response yields.
pub open spec fn subscription_of(r: Response) -> SubscriptionView {
    match r {
        Response::Subscription { id, url } => SubscriptionView { id, url: url@ },
        _ => SubscriptionView { id: 0, url: seq![] },
    }
}

/// The command that starts the listing of an operation.
pub open spec fn list_command(op: Operation) -> Command {
    match op {
        Operation::Unread { .. } => Command::ListUnread,
        Operation::ListSubscriptions => Command::ListSubscriptions,
    }
}

/// The session moved to `Failed`, reporting what was awaited and what came.
pub open spec fn violation(s: SessionView, expected: Expected, r: Response) -> (SessionView, Action) {
    (
        SessionView { phase: Phase::Failed, ..s },
        Action::Abort(SessionError::ProtocolViolation { expected, received: r }),
    )
}

/// The step of the state machine on one received response.
pub open spec fn next(s: SessionView, r: Response) -> (SessionView, Action) {
    match s.phase {
        Phase::AwaitAckUser => {
            if r is AckUser {
                (SessionView { phase: Phase::AwaitListStart, ..s }, Action::Send(list_command(s.op)))
            } else {
                violation(s, Expected::AckUser, r)
            }
        },
        Phase::AwaitListStart => match s.op {
            Operation::Unread { .. } => {
                if r is StartEntryList {
                    (SessionView { phase: Phase::Listing, ..s }, Action::Receive)
                } else {
                    violation(s, Expected::StartEntryList, r)
                }
            },
            Operation::ListSubscriptions => {
                if r is StartSubscriptionList {
                    (SessionView { phase: Phase::Listing, ..s }, Action::Receive)
                } else {
                    violation(s, Expected::StartSubscriptionList, r)
                }
            },
        },
        Phase::Listing => match s.op {
            Operation::Unread { mark_read } => {
                if r is Entry {
                    (SessionView { entries: s.entries.push(entry_of(r)), ..s }, Action::Receive)
                } else if r is EndList {
                    if mark_read && s.entries.len() > 0 {
                        (
                            SessionView { phase: Phase::Marking { next: 0 }, ..s },
                            Action::Send(Command::MarkRead { id: s.entries[0].id }),
                        )
                    } else {
                        (SessionView { phase: Phase::Done, ..s }, Action::Finish)
                    }
                } else {
                    violation(s, Expected::EntryOrEndList, r)
                }
            },
            Operation::ListSubscriptions => {
                if r is Subscription {
                    (
                        SessionView { subscriptions: s.subscriptions.push(subscription_of(r)), ..s },
                        Action::Receive,
                    )
                } else if r is EndList {
                    (SessionView { phase: Phase::Done, ..s }, Action::Finish)
                } else {
                    violation(s, Expected::SubscriptionOrEndList, r)
                }
            },
        },
        Phase::Marking { next } => {
            if r is AckMarkRead {
                if next + 1 < s.entries.len() {
                    (
                        SessionView { phase: Phase::Marking { next: (next + 1) as usize }, ..s },
                        Action::Send(Command::MarkRead { id: s.entries[next + 1].id }),
                    )
                } else {
                    (SessionView { phase: Phase::Done, ..s }, Action::Finish)
                }
            } else {
                violation(s, Expected::AckMarkRead, r)
            }
        },
        Phase::Done | Phase::Failed => (s, Action::Idle),
    }
}

pub open spec fn entries_view(v: Seq<Entry>) -> Seq<EntryView> {
    v.map_values(|e: Entry| e@)
}

pub open spec fn subscriptions_view(v: Seq<Subscription>) -> Seq<SubscriptionView> {
    v.map_values(|e: Subscription| e@)
}

/// The result of a completed operation.
#[derive(Debug, Clone, PartialEq, Eq)]
pub enum Outcome {
    /// The unread list was empty.
    NoEntries,
    /// The unread entries, in the order received; never empty.
    Entries(Vec<Entry>),
    /// The subscription list was empty.
    NoSubscriptions,
    /// The subscriptions, in the order received; never empty.
    Subscriptions(Vec<Subscription>),
}

/// One client session: authentication, one listing, and for unread entries
/// the mark-read round that follows it.
pub struct Session {
    op: Operation,
    phase: Phase,
    entries: Vec<Entry>,
    subscriptions: Vec<Subscription>,
}

impl View for Session {
    type V = SessionView;

    closed spec fn view(&self) -> SessionView {
        SessionView {
            op: self.op,
            phase: self.phase,
            entries: entries_view(self.entries@),
            subscriptions: subscriptions_view(self.subscriptions@),
        }
    }
}

impl Session {
    /// Starts a session for `op` as `username`: the first action sends `User`.
    pub fn new(op: Operation, username: String) -> (r: (Session, Action))
        ensures
            r.0@ == initial(op),
            r.1 == Action::Send(Command::User { username }),
    {
        let s = Session { op, phase: Phase::AwaitAckUser, entries: Vec::new(), subscriptions: Vec::new() };
        proof {
            assert(s@.entries =~= seq![]);
            assert(s@.subscriptions =~= seq![]);
        }
        (s, Action::Send(Command::User { username }))
    }

    pub fn operation(&self) -> (r: Operation)
        ensures
            r == self@.op,
    {
        self.op
    }

    pub fn phase(&self) -> (r: Phase)
        ensures
            r == self@.phase,
    {
        self.phase
    }

    /// The entries collected so far, in the order received.
    pub fn entries(&self) -> (r: &Vec<Entry>)
        ensures
            entries_view(r@) == self@.entries,
    {
        &self.entries
    }

    /// The subscriptions collected so far, in the order received.
    pub fn subscriptions(&self) -> (r: &Vec<Subscription>)
        ensures
            subscriptions_view(r@) == self@.subscriptions,
    {
        &self.subscriptions
    }

    fn violation(&mut self, expected: Expected, r: Response) -> (a: Action)
        ensures
            (final(self)@, a) == violation(old(self)@, expected, r),
    {
        self.phase = Phase::Failed;
        Action::Abort(SessionError::ProtocolViolation { expected, received: r })
    }

    /// Advances the session on one received response.
    pub fn step(&mut self, r: Response) -> (a: Action)
        requires
            old(self)@.wf(),
        ensures
            final(self)@.wf(),
            (final(self)@, a) == next(old(self)@, r),
    {
        match self.phase {
            Phase::AwaitAckUser => match r {
                Response::AckUser { .. } => {
                    self.phase = Phase::AwaitListStart;
                    match self.op {
                        Operation::Unread { .. } => Action::Send(Command::ListUnread),
                        Operation::ListSubscriptions => Action::Send(Command::ListSubscriptions),
                    }
                },
                _ => self.violation(Expected::AckUser, r),
            },
            Phase::AwaitListStart => match self.op {
                Operation::Unread { .. } => match r {
                    Response::StartEntryList => {
                        self.phase = Phase::Listing;
                        Action::Receive
                    },
                    _ => self.violation(Expected::StartEntryList, r),
                },
                Operation::ListSubscriptions => match r {
                    Response::StartSubscriptionList => {
                        self.phase = Phase::Listing;
                        Action::Receive
                    },
                    _ => self.violation(Expected::StartSubscriptionList, r),
                },
            },
            Phase::Listing => match self.op {
                Operation::Unread { mark_read } => match r {
                    Response::Entry { id, feed_url, url, title, .. } => {
                        proof {
                            reveal_strlit("/");
                        }
                        let full_url = feed_url.concat("/").concat(url.as_str());
                        assert(full_url@ =~= feed_url@ + seq!['/'] + url@);
                        let e = Entry { id, full_url, title };
                        let ghost before = self.entries@;
                        self.entries.push(e);
                        proof {
                            assert(entries_view(self.entries@) =~= entries_view(before).push(e@));
                        }
                        Action::Receive
                    },
                    Response::EndList => {
                        if mark_read && self.entries.len() > 0 {
                            self.phase = Phase::Marking { next: 0 };
                            Action::Send(Command::MarkRead { id: self.entries[0].id })
                        } else {
                            self.phase = Phase::Done;
                            Action::Finish
                        }
                    },
                    _ => self.violation(Expected::EntryOrEndList, r),
                },
                Operation::ListSubscriptions => match r {
                    Response::Subscription { id, url } => {
                        let sub = Subscription { id, url };
                        let ghost before = self.subscriptions@;
                        self.subscriptions.push(sub);
                        proof {
                            assert(subscriptions_view(self.subscriptions@) =~= subscriptions_view(
                                before,
                            ).push(sub@));
                        }
                        Action::Receive
                    },
                    Response::EndList => {
                        self.phase = Phase::Done;
                        Action::Finish
                    },
                    _ => self.violation(Expected::SubscriptionOrEndList, r),
                },
            },
            Phase::Marking { next } => match r {
                Response::AckMarkRead => {
                    assert(self@.entries.len() == self.entries@.len());
                    if next < self.entries.len() - 1 {
                        self.phase = Phase::Marking { next: next + 1 };
                        Action::Send(Command::MarkRead { id: self.entries[next + 1].id })
                    } else {
                        self.phase = Phase::Done;
                        Action::Finish
                    }
                },
                _ => self.violation(Expected::AckMarkRead, r),
            },
            Phase::Done | Phase::Failed => Action::Idle,
        }
    }

    /// Advances the session on one line read from the server, its terminator
    /// removed; `None` where the stream ended first. A line that follows no
    /// response grammar fails the session with `ParseError`, as does a closed
    /// stream with `ConnectionClosed`; a session that is over stays as it is.
    pub fn step_line(&mut self, line: Option<&str>) -> (a: Action)
        requires
            old(self)@.wf(),
        ensures
            final(self)@.wf(),
            old(self)@.is_over() ==> final(self)@ == old(self)@ && a == Action::Idle,
            !old(self)@.is_over() ==> match line {
                None => final(self)@ == (SessionView { phase: Phase::Failed, ..old(self)@ }) && a
                    == Action::Abort(SessionError::ConnectionClosed),
                Some(l) => match parsed_response(l@) {
                    Some(r) => (final(self)@, a) == next(old(self)@, r),
                    None => final(self)@ == (SessionView { phase: Phase::Failed, ..old(self)@ })
                        && a is Abort && a->Abort_0 is ParseError
                        && a->Abort_0->ParseError_line@ == l@,
                },
            },
    {
        match self.phase {
            Phase::Done | Phase::Failed => {
                return Action::Idle;
            },
            _ => {},
        }
        match line {
            None => {
                self.phase = Phase::Failed;
                Action::Abort(SessionError::ConnectionClosed)
            },
            Some(l) => match decode(l) {
                Some(r) => self.step(r),
                None => {
                    self.phase = Phase::Failed;
                    Action::Abort(SessionError::ParseError { line: l.to_owned() })
                },
            },
        }
    }

    /// The result of the operation once it completed; `None` before that or
    /// after a failure. An empty list gives `NoEntries` or `NoSubscriptions`.
    pub fn into_outcome(self) -> (r: Option<Outcome>)
        ensures
            !(self@.phase is Done) ==> r is None,
            self@.phase is Done ==> match self@.op {
                Operation::Unread { .. } => if self@.entries.len() == 0 {
                    r == Some(Outcome::NoEntries)
                } else {
                    r matches Some(Outcome::Entries(v)) && entries_view(v@) == self@.entries
                },
                Operation::ListSubscriptions => if self@.subscriptions.len() == 0 {
                    r == Some(Outcome::NoSubscriptions)
                } else {
                    r matches Some(Outcome::Subscriptions(v)) && subscriptions_view(v@)
                        == self@.subscriptions
                },
            },
    {
        match self.phase {
            Phase::Done => {},
            _ => {
                return None;
            },
        }
        match self.op {
            Operation::Unread { .. } => {
                if self.entries.len() == 0 {
                    Some(Outcome::NoEntries)
                } else {
                    Some(Outcome::Entries(self.entries))
                }
            },
            Operation::ListSubscriptions => {
                if self.subscriptions.len() == 0 {
                    Some(Outcome::NoSubscriptions)
                } else {
                    Some(Outcome::Subscriptions(self.subscriptions))
                }
            },
        }
    }
}

} // verus!
