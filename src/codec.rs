//! Wire encoding of commands and decoding of response lines.
//!
//! The textual grammar is the one of the `seymour_protocol` crate, which the
//! server shares; this module converts between its types and the library's
//! own and frames each command as one CRLF-terminated line.
use vstd::prelude::*;
use vstd::string::*;

use crate::protocol::{Command, Response};
use seymour_protocol::{Command as WireCommand, ParseMessageError, Response as WireResponse};

verus! {

/// The protocol crate's command enum, declared with its public variants so
/// that verified code builds it from the library's `Command`.
#[verifier::external_type_specification]
pub struct ExWireCommand(WireCommand);

/// The protocol crate's response enum, declared with its public variants so
/// that verified code converts it to the library's `Response`.
#[verifier::external_type_specification]
pub struct ExWireResponse(WireResponse);

/// The protocol crate's parse error, carried opaquely and only told apart
/// from success.
#[verifier::external_type_specification]
#[verifier::external_body]
pub struct ExParseMessageError(ParseMessageError);

/// The character of a decimal digit.
pub open spec fn digit_char(d: nat) -> char {
    if d == 0 { '0' }
    else if d == 1 { '1' }
    else if d == 2 { '2' }
    else if d == 3 { '3' }
    else if d == 4 { '4' }
    else if d == 5 { '5' }
    else if d == 6 { '6' }
    else if d == 7 { '7' }
    else if d == 8 { '8' }
    else { '9' }
}

/// Decimal digits of a natural number, most significant first, no leading zeros.
pub open spec fn natural_text(n: nat) -> Seq<char>
    decreases n,
{
    if n < 10 {
        seq![digit_char(n)]
    } else {
        natural_text(n / 10).push(digit_char(n % 10))
    }
}

/// Decimal text of an integer, with a leading `-` when it is negative.
pub open spec fn integer_text(n: int) -> Seq<char> {
    if n < 0 {
        seq!['-'] + natural_text((-n) as nat)
    } else {
        natural_text(n as nat)
    }
}

/// The text of a wire command, without its line terminator.
pub open spec fn wire_command_text(c: WireCommand) -> Seq<char> {
    match c {
        WireCommand::User { username } => seq!['U', 'S', 'E', 'R', ' '] + username@,
        WireCommand::ListSubscriptions =>
            seq!['L', 'I', 'S', 'T', 'S', 'U', 'B', 'S', 'C', 'R', 'I', 'P', 'T', 'I', 'O', 'N', 'S'],
        WireCommand::Subscribe { url } =>
            seq!['S', 'U', 'B', 'S', 'C', 'R', 'I', 'B', 'E', ' '] + url@,
        WireCommand::Unsubscribe { id } =>
            seq!['U', 'N', 'S', 'U', 'B', 'S', 'C', 'R', 'I', 'B', 'E', ' '] + integer_text(id as int),
        WireCommand::ListUnread => seq!['L', 'I', 'S', 'T', 'U', 'N', 'R', 'E', 'A', 'D'],
        WireCommand::MarkRead { id } =>
            seq!['M', 'A', 'R', 'K', 'R', 'E', 'A', 'D', ' '] + integer_text(id as int),
    }
}

/// The text of a command, without its line terminator.
pub open spec fn command_text(c: Command) -> Seq<char> {
    wire_command_text(wire_command(c))
}

/// The line that carries a command: its text followed by CRLF.
pub open spec fn command_line(c: Command) -> Seq<char> {
    command_text(c) + seq!['\r', '\n']
}

/// The wire form of a command.
pub open spec fn wire_command(c: Command) -> WireCommand {
    match c {
        Command::User { username } => WireCommand::User { username },
        Command::ListUnread => WireCommand::ListUnread,
        Command::ListSubscriptions => WireCommand::ListSubscriptions,
        Command::MarkRead { id } => WireCommand::MarkRead { id },
    }
}

/// The library's form of a wire response.
pub open spec fn from_wire(r: WireResponse) -> Response {
    match r {
        WireResponse::AckUser { id } => Response::AckUser { id },
        WireResponse::StartSubscriptionList => Response::StartSubscriptionList,
        WireResponse::Subscription { id, url } => Response::Subscription { id, url },
        WireResponse::StartEntryList => Response::StartEntryList,
        WireResponse::Entry { id, feed_id, feed_url, title, url } =>
            Response::Entry { id, feed_id, feed_url, title, url },
        WireResponse::EndList => Response::EndList,
        WireResponse::AckSubscribe => Response::AckSubscribe,
        WireResponse::AckUnsubscribe => Response::AckUnsubscribe,
        WireResponse::AckMarkRead => Response::AckMarkRead,
        WireResponse::ResourceNotFound(m) => Response::ResourceNotFound(m),
        WireResponse::BadCommand(m) => Response::BadCommand(m),
        WireResponse::NeedUser(m) => Response::NeedUser(m),
        WireResponse::InternalError(m) => Response::InternalError(m),
    }
}

/// What the protocol's response parser makes of a line: `None` where the
/// line follows none of the response grammars.
pub uninterp spec fn parsed_response(line: Seq<char>) -> Option<Response>;

/// Relies on `Display` for `WireCommand`: it writes the keyword,
/// then the argument after one space, integers in decimal.
#[verifier::external_body]
fn wire_text(c: &WireCommand) -> (r: String)
    ensures
        r@ == wire_command_text(*c),
{
    c.to_string()
}

/// Relies on `FromStr` for `WireResponse`, which parses one
/// response line or fails with its `ParseMessageError`.
#[verifier::external_body]
fn parse_wire(line: &str) -> (r: Result<WireResponse, ParseMessageError>)
    ensures
        match r {
            Ok(w) => parsed_response(line@) == Some(from_wire(w)),
            Err(_) => parsed_response(line@) is None,
        },
{
    line.parse::<WireResponse>()
}

/// Converts a command to the protocol crate's type.
pub fn to_wire(c: &Command) -> (r: WireCommand)
    ensures
        r == wire_command(*c),
{
    match c {
        Command::User { username } => WireCommand::User { username: username.clone() },
        Command::ListUnread => WireCommand::ListUnread,
        Command::ListSubscriptions => WireCommand::ListSubscriptions,
        Command::MarkRead { id } => WireCommand::MarkRead { id: *id },
    }
}

/// Converts a response of the protocol crate's type to the library's own.
pub fn response_from_wire(r: WireResponse) -> (out: Response)
    ensures
        out == from_wire(r),
{
    match r {
        WireResponse::AckUser { id } => Response::AckUser { id },
        WireResponse::StartSubscriptionList => Response::StartSubscriptionList,
        WireResponse::Subscription { id, url } => Response::Subscription { id, url },
        WireResponse::StartEntryList => Response::StartEntryList,
        WireResponse::Entry { id, feed_id, feed_url, title, url } =>
            Response::Entry { id, feed_id, feed_url, title, url },
        WireResponse::EndList => Response::EndList,
        WireResponse::AckSubscribe => Response::AckSubscribe,
        WireResponse::AckUnsubscribe => Response::AckUnsubscribe,
        WireResponse::AckMarkRead => Response::AckMarkRead,
        WireResponse::ResourceNotFound(m) => Response::ResourceNotFound(m),
        WireResponse::BadCommand(m) => Response::BadCommand(m),
        WireResponse::NeedUser(m) => Response::NeedUser(m),
        WireResponse::InternalError(m) => Response::InternalError(m),
    }
}

/// Renders a command as the line that goes on the wire: its text and CRLF.
pub fn encode(c: &Command) -> (r: String)
    ensures
        r@ == command_line(*c),
{
    let text = wire_text(&to_wire(c));
    proof {
        reveal_strlit("\r\n");
    }
    text.concat("\r\n")
}

/// Parses one response line, its terminator already removed. `None` where
/// the line follows no response grammar.
pub fn decode(line: &str) -> (r: Option<Response>)
    ensures
        r == parsed_response(line@),
{
    match parse_wire(line) {
        Ok(w) => Some(response_from_wire(w)),
        Err(_) => None,
    }
}

} // verus!
