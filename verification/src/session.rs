use vstd::prelude::*;

use crate::framing::{
    first_delim, framed, has_delim, is_message, lemma_first_delim, lemma_round_trip, line_of,
    rest_of,
};

verus! {

/// The wire bytes of a whole echoed session: each message framed, one
/// after the other, in the order sent.
pub open spec fn session_wire(ms: Seq<Seq<u8>>) -> Seq<u8>
    decreases ms.len(),
{
    if ms.len() == 0 {
        Seq::empty()
    } else {
        framed(ms[0]) + session_wire(ms.drop_first())
    }
}

/// Every complete line of `s`, in order: the first line, then the lines
/// of what follows it.  Bytes after the last delimiter yield no line.
pub open spec fn extract_all(s: Seq<u8>) -> Seq<Seq<u8>>
    decreases s.len(),
{
    if has_delim(s) && 0 <= first_delim(s) < s.len() {
        seq![line_of(s)] + extract_all(rest_of(s))
    } else {
        Seq::empty()
    }
}

/// A whole session echoes faithfully and in order: the wire bytes of any
/// sequence of messages parse back into exactly those messages, each one
/// byte for byte as sent, none lost, none added, in the order sent.  The
/// parse of a session's wire depends on that session's bytes alone, so a
/// connection carrying it is unaffected by any other connection.
pub proof fn lemma_session_echo(ms: Seq<Seq<u8>>)
    requires
        forall|k: int| 0 <= k < ms.len() ==> is_message(#[trigger] ms[k]),
    ensures
        extract_all(session_wire(ms)) == ms,
    decreases ms.len(),
{
    if ms.len() == 0 {
        assert(!has_delim(Seq::<u8>::empty()));
        assert(extract_all(session_wire(ms)) =~= ms);
    } else {
        let tail = ms.drop_first();
        let wire = session_wire(ms);
        assert(wire == framed(ms[0]) + session_wire(tail));
        lemma_round_trip(ms[0], session_wire(tail));
        lemma_first_delim(wire);
        assert(forall|k: int| 0 <= k < tail.len() ==> is_message(#[trigger] tail[k]));
        lemma_session_echo(tail);
        assert(extract_all(wire) == seq![ms[0]] + tail);
        assert(seq![ms[0]] + tail =~= ms);
    }
}

} // verus!
