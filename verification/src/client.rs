use vstd::prelude::*;

use crate::framing::{append_bytes, copy_range, DELIM};

verus! {

/// Operator input with its trailing input terminator removed: one trailing
/// delimiter byte is dropped if present, nothing else changes.
pub open spec fn stripped(s: Seq<u8>) -> Seq<u8> {
    if s.len() > 0 && s[s.len() - 1] == DELIM {
        s.drop_last()
    } else {
        s
    }
}

/// The tag the client prints before each echoed reply: `[Server] : `.
pub open spec fn server_tag() -> Seq<u8> {
    seq![91u8, 83u8, 101u8, 114u8, 118u8, 101u8, 114u8, 93u8, 32u8, 58u8, 32u8]
}

/// The line the client displays for one echoed message: the server tag
/// followed by the message.
pub open spec fn display_line(m: Seq<u8>) -> Seq<u8> {
    server_tag() + m
}

/// Strips the trailing input terminator from one line of operator input:
/// the delimiter that ended the line is dropped before the message is
/// sent, since the framing adds its own.  Input that does not end in a
/// delimiter (end of input with no final newline) is kept whole.
pub fn strip_terminator(input: &Vec<u8>) -> (m: Vec<u8>)
    ensures
        m@ == stripped(input@),
{
    let n = input.len();
    if n > 0 && input[n - 1] == DELIM {
        let m = copy_range(input, 0, n - 1);
        proof {
            assert(input@.subrange(0, n - 1) =~= input@.drop_last());
        }
        m
    } else {
        let m = copy_range(input, 0, n);
        proof {
            assert(input@.subrange(0, n as int) =~= input@);
        }
        m
    }
}

/// Builds the line the client displays for one echoed message:
/// `[Server] : ` followed by the message bytes.
pub fn client_display_line(m: &Vec<u8>) -> (d: Vec<u8>)
    ensures
        d@ == display_line(m@),
{
    let mut d: Vec<u8> = Vec::new();
    d.push(91);
    d.push(83);
    d.push(101);
    d.push(114);
    d.push(118);
    d.push(101);
    d.push(114);
    d.push(93);
    d.push(32);
    d.push(58);
    d.push(32);
    append_bytes(&mut d, m);
    proof {
        assert(d@ =~= display_line(m@));
    }
    d
}

} // verus!
