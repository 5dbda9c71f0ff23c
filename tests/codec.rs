use seymour_cli::codec::{decode, encode};
use seymour_cli::protocol::{Command, Response};

#[test]
fn encode_user_command() {
    let c = Command::User { username: "alice".to_string() };
    assert_eq!(encode(&c), "USER alice\r\n");
}

#[test]
fn encode_list_commands() {
    assert_eq!(encode(&Command::ListUnread), "LISTUNREAD\r\n");
    assert_eq!(encode(&Command::ListSubscriptions), "LISTSUBSCRIPTIONS\r\n");
}

#[test]
fn encode_mark_read_in_decimal() {
    assert_eq!(encode(&Command::MarkRead { id: 42 }), "MARKREAD 42\r\n");
    assert_eq!(encode(&Command::MarkRead { id: -7 }), "MARKREAD -7\r\n");
    assert_eq!(encode(&Command::MarkRead { id: 0 }), "MARKREAD 0\r\n");
}

#[test]
fn decode_simple_responses() {
    assert_eq!(decode("20 5"), Some(Response::AckUser { id: 5 }));
    assert_eq!(decode("21"), Some(Response::StartSubscriptionList));
    assert_eq!(decode("23"), Some(Response::StartEntryList));
    assert_eq!(decode("25"), Some(Response::EndList));
    assert_eq!(decode("28"), Some(Response::AckMarkRead));
}

#[test]
fn decode_subscription() {
    assert_eq!(
        decode("22 3 gemini://example.org/feed"),
        Some(Response::Subscription { id: 3, url: "gemini://example.org/feed".to_string() })
    );
}

#[test]
fn decode_entry_keeps_spaces_in_title() {
    assert_eq!(
        decode("24 1 7 gemini://example.org posts/one.gmi A first post"),
        Some(Response::Entry {
            id: 1,
            feed_id: 7,
            feed_url: "gemini://example.org".to_string(),
            title: "A first post".to_string(),
            url: "posts/one.gmi".to_string(),
        })
    );
}

#[test]
fn decode_error_responses() {
    assert_eq!(decode("41 bad"), Some(Response::BadCommand("bad".to_string())));
    assert_eq!(decode("42 who"), Some(Response::NeedUser("who".to_string())));
}

#[test]
fn decode_rejects_malformed_lines() {
    assert_eq!(decode(""), None);
    assert_eq!(decode("99"), None);
    assert_eq!(decode("hello world"), None);
    assert_eq!(decode("20 notanumber"), None);
    assert_eq!(decode("23 extra"), None);
    assert_eq!(decode("24 1"), None);
}

#[test]
fn commands_round_trip_through_the_server_grammar() {
    let cases = vec![
        Command::User { username: "bob".to_string() },
        Command::ListUnread,
        Command::ListSubscriptions,
        Command::MarkRead { id: 9 },
    ];
    for c in cases {
        let line = encode(&c);
        let text = line.strip_suffix("\r\n").unwrap();
        let parsed: seymour_protocol::Command = text.parse().unwrap();
        assert_eq!(format!("{}\r\n", parsed), line);
    }
}

#[test]
fn responses_round_trip_through_decode() {
    let cases = vec![
        seymour_protocol::Response::AckUser { id: 12 },
        seymour_protocol::Response::StartEntryList,
        seymour_protocol::Response::Entry {
            id: 2,
            feed_id: 3,
            feed_url: "gemini://a".to_string(),
            title: "T t".to_string(),
            url: "b".to_string(),
        },
        seymour_protocol::Response::EndList,
        seymour_protocol::Response::AckMarkRead,
    ];
    let expected = vec![
        Response::AckUser { id: 12 },
        Response::StartEntryList,
        Response::Entry {
            id: 2,
            feed_id: 3,
            feed_url: "gemini://a".to_string(),
            title: "T t".to_string(),
            url: "b".to_string(),
        },
        Response::EndList,
        Response::AckMarkRead,
    ];
    for (w, e) in cases.into_iter().zip(expected) {
        assert_eq!(decode(&w.to_string()), Some(e));
    }
}
