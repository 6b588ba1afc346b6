//! What the service decides, call by call: the greeting, and the turns of a
//! conversation. Receiving and sending are the caller's.

use crate::envelope::{sealed, Envelope};
use crate::ident::ID_LENGTH;
use crate::talk::talk::{may_reply, reply};
use vstd::prelude::*;
use vstd::string::*;

verus! {

/// Where a greeting comes from.
pub const HELLO_SOURCE: &'static str = "/basic/hello";

/// The kind of event that carries a greeting.
pub const HELLO_KIND: &'static str = "io.basic.hello";

/// The type of the encoded body of such an event.
pub const HELLO_DATA_TYPE: &'static str = "basic.service.v1.HelloResponseEvent";

/// What a failure to receive is reported with, before the cause.
pub const RECEIVE_FAILURE: &'static str = "Failed to receive message: ";

/// The greeting for `message`.
pub open spec fn greeting_of(message: Seq<char>) -> Seq<char> {
    "Hello, "@ + message + "!"@
}

/// Greets the sender of `message`.
pub fn hello_greeting(message: &str) -> (greeting: String)
    ensures
        greeting@ == greeting_of(message@),
{
    let mut greeting = "Hello, ".to_owned();
    greeting.append(message);
    greeting.append("!");
    greeting
}

/// Wraps an encoded greeting for the caller, under a fresh identifier.
pub fn create_hello_response(encoded_event: Vec<u8>) -> (envelope: Envelope)
    ensures
        envelope@ == sealed(
            envelope@.id,
            HELLO_SOURCE@,
            HELLO_KIND@,
            HELLO_DATA_TYPE@,
            encoded_event@,
        ),
        envelope@.id.len() == ID_LENGTH,
{
    Envelope::seal_fresh(HELLO_SOURCE, HELLO_KIND, HELLO_DATA_TYPE, encoded_event)
}

/// What came in on the stream of a conversation.
#[derive(Debug)]
pub enum Inbound {
    /// A line of the conversation.
    Message(String),
    /// The stream broke; the text says how.
    Broken(String),
}

/// What goes out in answer.
#[derive(Debug)]
pub enum Outbound {
    /// The answer to a line.
    Answer(String),
    /// The report of a broken stream, which ends the conversation.
    Failure(String),
}

/// `outbound` is a possible answer to `inbound`: a line is answered as the
/// responder may reply to it, and a broken stream is reported with its cause.
pub open spec fn may_answer_turn(inbound: Inbound, outbound: Outbound) -> bool {
    match inbound {
        Inbound::Message(line) => outbound matches Outbound::Answer(answer) && exists|over: bool|
            #[trigger] may_reply(line@, answer@, over),
        Inbound::Broken(cause) => outbound matches Outbound::Failure(report) && report@
            == RECEIVE_FAILURE@ + cause@,
    }
}

/// Takes one turn of a conversation: answers a line, or reports that the
/// stream broke.
pub fn talk_turn(inbound: Inbound) -> (outbound: Outbound)
    ensures
        may_answer_turn(inbound, outbound),
{
    match inbound {
        Inbound::Message(line) => {
            let (answer, over) = reply(line.as_str());
            let outbound = Outbound::Answer(answer);
            assert(outbound matches Outbound::Answer(text) && may_reply(line@, text@, over));
            outbound
        },
        Inbound::Broken(cause) => {
            let mut report = RECEIVE_FAILURE.to_owned();
            report.append(cause.as_str());
            Outbound::Failure(report)
        },
    }
}

/// Whether a conversation goes on after `outbound` was sent: it does after an
/// answer that the consumer took, and ends after a report of failure or a
/// send that failed.
pub fn talk_goes_on(outbound: &Outbound, delivered: bool) -> (on: bool)
    ensures
        on == (outbound is Answer && delivered),
{
    match outbound {
        Outbound::Answer(_) => delivered,
        Outbound::Failure(_) => false,
    }
}

} // verus!
