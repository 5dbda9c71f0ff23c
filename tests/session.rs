use seymour_cli::protocol::{Command, Response};
use seymour_cli::session::{
    Action, Entry, Expected, Operation, Outcome, Phase, Session, SessionError, Subscription,
};

struct Run {
    sent: Vec<Command>,
    last: Action,
    lines_read: usize,
    session: Session,
}

fn drive(op: Operation, lines: &[&str]) -> Run {
    let (mut session, mut action) = Session::new(op, "alice".to_string());
    let mut sent = Vec::new();
    let mut lines_read = 0;
    loop {
        match action {
            Action::Send(c) => sent.push(c),
            Action::Receive => {}
            _ => break,
        }
        let line = lines.get(lines_read).copied();
        if line.is_some() {
            lines_read += 1;
        }
        action = session.step_line(line);
    }
    Run { sent, last: action, lines_read, session }
}

fn entry(id: i64, full_url: &str, title: &str) -> Entry {
    Entry { id, full_url: full_url.to_string(), title: title.to_string() }
}

fn user() -> Command {
    Command::User { username: "alice".to_string() }
}

#[test]
fn unread_entries_come_in_order() {
    let r = drive(
        Operation::Unread { mark_read: false },
        &["20 1", "23", "24 1 10 gemini://f a First", "24 2 10 gemini://f b Second", "25"],
    );
    assert_eq!(r.last, Action::Finish);
    assert_eq!(r.sent, vec![user(), Command::ListUnread]);
    assert_eq!(
        r.session.into_outcome(),
        Some(Outcome::Entries(vec![
            entry(1, "gemini://f/a", "First"),
            entry(2, "gemini://f/b", "Second"),
        ]))
    );
}

#[test]
fn suppressed_mark_read_sends_no_mark_read() {
    let r = drive(
        Operation::Unread { mark_read: false },
        &["20 1", "23", "24 1 1 gemini://f a A", "24 2 1 gemini://f b B", "24 3 1 gemini://f c C", "25"],
    );
    assert_eq!(r.last, Action::Finish);
    assert!(r.sent.iter().all(|c| !matches!(c, Command::MarkRead { .. })));
    assert_eq!(r.sent.len(), 2);
}

#[test]
fn mark_read_waits_for_each_ack() {
    let r = drive(
        Operation::Unread { mark_read: true },
        &["20 1", "23", "24 1 1 gemini://f a A", "24 2 1 gemini://f b B", "25", "28", "28"],
    );
    assert_eq!(r.last, Action::Finish);
    assert_eq!(
        r.sent,
        vec![user(), Command::ListUnread, Command::MarkRead { id: 1 }, Command::MarkRead { id: 2 }]
    );
    assert_eq!(r.lines_read, 7);
}

#[test]
fn unexpected_ack_stops_marking() {
    let mut r = drive(
        Operation::Unread { mark_read: true },
        &["20 1", "23", "24 1 1 gemini://f a A", "24 2 1 gemini://f b B", "25", "25", "28"],
    );
    assert_eq!(
        r.last,
        Action::Abort(SessionError::ProtocolViolation {
            expected: Expected::AckMarkRead,
            received: Response::EndList,
        })
    );
    assert_eq!(r.sent, vec![user(), Command::ListUnread, Command::MarkRead { id: 1 }]);
    assert_eq!(r.lines_read, 6);
    assert_eq!(r.session.phase(), Phase::Failed);
    assert_eq!(r.session.step(Response::AckMarkRead), Action::Idle);
    assert_eq!(r.session.into_outcome(), None);
}

#[test]
fn missing_ack_user_fails_before_listing() {
    let r = drive(Operation::Unread { mark_read: true }, &["23", "25"]);
    assert_eq!(
        r.last,
        Action::Abort(SessionError::ProtocolViolation {
            expected: Expected::AckUser,
            received: Response::StartEntryList,
        })
    );
    assert_eq!(r.sent, vec![user()]);
    assert_eq!(r.lines_read, 1);
}

#[test]
fn empty_unread_list_is_no_entries() {
    let r = drive(Operation::Unread { mark_read: true }, &["20 1", "23", "25"]);
    assert_eq!(r.last, Action::Finish);
    assert_eq!(r.sent, vec![user(), Command::ListUnread]);
    assert_eq!(r.session.into_outcome(), Some(Outcome::NoEntries));
}

#[test]
fn malformed_line_aborts_without_more_reads() {
    let r = drive(Operation::Unread { mark_read: false }, &["20 1", "not a response", "25"]);
    assert_eq!(
        r.last,
        Action::Abort(SessionError::ParseError { line: "not a response".to_string() })
    );
    assert_eq!(r.lines_read, 2);
    assert_eq!(r.session.phase(), Phase::Failed);
}

#[test]
fn closed_stream_aborts() {
    let r = drive(Operation::Unread { mark_read: false }, &["20 1", "23"]);
    assert_eq!(r.last, Action::Abort(SessionError::ConnectionClosed));
}

#[test]
fn unexpected_item_in_unread_list() {
    let r = drive(Operation::Unread { mark_read: false }, &["20 1", "23", "22 1 gemini://x"]);
    assert_eq!(
        r.last,
        Action::Abort(SessionError::ProtocolViolation {
            expected: Expected::EntryOrEndList,
            received: Response::Subscription { id: 1, url: "gemini://x".to_string() },
        })
    );
}

#[test]
fn subscriptions_are_listed() {
    let r = drive(
        Operation::ListSubscriptions,
        &["20 1", "21", "22 4 gemini://one", "22 5 gemini://two", "25"],
    );
    assert_eq!(r.last, Action::Finish);
    assert_eq!(r.sent, vec![user(), Command::ListSubscriptions]);
    assert_eq!(
        r.session.into_outcome(),
        Some(Outcome::Subscriptions(vec![
            Subscription { id: 4, url: "gemini://one".to_string() },
            Subscription { id: 5, url: "gemini://two".to_string() },
        ]))
    );
}

#[test]
fn empty_subscription_list() {
    let r = drive(Operation::ListSubscriptions, &["20 1", "21", "25"]);
    assert_eq!(r.session.into_outcome(), Some(Outcome::NoSubscriptions));
}

#[test]
fn subscription_list_needs_its_own_start() {
    let r = drive(Operation::ListSubscriptions, &["20 1", "23"]);
    assert_eq!(
        r.last,
        Action::Abort(SessionError::ProtocolViolation {
            expected: Expected::StartSubscriptionList,
            received: Response::StartEntryList,
        })
    );
}

#[test]
fn server_error_in_place_of_ack_user() {
    let r = drive(Operation::ListSubscriptions, &["42 nouser"]);
    assert_eq!(
        r.last,
        Action::Abort(SessionError::ProtocolViolation {
            expected: Expected::AckUser,
            received: Response::NeedUser("nouser".to_string()),
        })
    );
}

#[test]
fn outcome_is_none_before_completion() {
    let (s, a) = Session::new(Operation::Unread { mark_read: false }, "bob".to_string());
    assert_eq!(a, Action::Send(Command::User { username: "bob".to_string() }));
    assert_eq!(s.operation(), Operation::Unread { mark_read: false });
    assert_eq!(s.phase(), Phase::AwaitAckUser);
    assert_eq!(s.into_outcome(), None);
}

#[test]
fn entries_stay_readable_after_a_failed_mark_read() {
    let r = drive(
        Operation::Unread { mark_read: true },
        &["20 1", "23", "24 1 1 gemini://f a A", "24 2 1 gemini://f b B", "25", "41 oops"],
    );
    assert_eq!(r.sent.len(), 3);
    assert_eq!(
        r.session.entries(),
        &vec![entry(1, "gemini://f/a", "A"), entry(2, "gemini://f/b", "B")]
    );
    assert!(r.session.subscriptions().is_empty());
}
