use vstd::prelude::*;

use crate::errors::ProtocolError;
use crate::framing::{append_bytes, frame_message, framed};

verus! {

/// What a server handler does in answer to one receive outcome.
pub enum HandlerAction {
    /// Record `log`, write `wire` back to the peer, and keep going.
    Reply { wire: Vec<u8>, log: Vec<u8> },
    /// The peer closed cleanly: stop without reporting anything.
    StopQuiet,
    /// A fault ended the connection: stop and report the error.
    StopError(ProtocolError),
}

/// The log line the server records for one received message:
/// `[` then the peer's address text, then `] : `, then the message.
pub open spec fn log_line(peer: Seq<u8>, m: Seq<u8>) -> Seq<u8> {
    seq![91u8] + peer + seq![93u8, 32u8, 58u8, 32u8] + m
}

/// Builds the server's log line for one message from `peer`.
pub fn server_log_line(peer: &Vec<u8>, m: &Vec<u8>) -> (l: Vec<u8>)
    ensures
        l@ == log_line(peer@, m@),
{
    let mut l: Vec<u8> = Vec::new();
    l.push(91);
    append_bytes(&mut l, peer);
    l.push(93);
    l.push(32);
    l.push(58);
    l.push(32);
    append_bytes(&mut l, m);
    proof {
        assert(l@ =~= log_line(peer@, m@));
    }
    l
}

/// The server handler's whole decision for one receive outcome.
///
/// On a received message it echoes: the reply wire bytes frame exactly the
/// message that came in, unmodified, and the log line names the peer and
/// the message.  On a clean close by the peer it stops quietly; on any
/// other error it stops carrying that error.  The decision depends on
/// nothing but the peer's name and the event, so no two connections can
/// influence one another's replies.
pub fn handler_step(peer: &Vec<u8>, event: Result<Vec<u8>, ProtocolError>) -> (a: HandlerAction)
    ensures
        match event {
            Ok(m) => a matches HandlerAction::Reply { wire, log } && wire@ == framed(m@)
                && log@ == log_line(peer@, m@),
            Err(e) => if e is ConnectionClosed {
                a is StopQuiet
            } else {
                a matches HandlerAction::StopError(e2) && e2 == e
            },
        },
{
    match event {
        Ok(m) => {
            let log = server_log_line(peer, &m);
            let wire = frame_message(&m);
            HandlerAction::Reply { wire, log }
        },
        Err(ProtocolError::ConnectionClosed) => HandlerAction::StopQuiet,
        Err(e) => HandlerAction::StopError(e),
    }
}

} // verus!
