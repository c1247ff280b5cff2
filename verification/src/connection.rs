use vstd::prelude::*;

use crate::errors::ProtocolError;
use crate::framing::{
    copy_range, frame_message, framed, has_delim, is_message, lemma_first_delim,
    lemma_first_delim_unique, line_of, rest_of, DELIM,
};

verus! {

/// The abstract state of a connection's receive side: the bytes read from
/// the stream but not yet handed out as lines, and whether the peer has
/// ended the stream.
pub struct ConnectionModel {
    pub buffered: Seq<u8>,
    pub closed: bool,
}

/// The receive half of one echo-protocol connection.
///
/// It frames text lines over a raw byte stream with a single delimiter
/// byte.  Raw chunks read from the stream are handed in with [`feed`]
/// (or [`close_input`] on a zero-length read), and complete lines are
/// taken out with [`try_receive`].  Sending needs no state: every send
/// is framed and flushed whole, so [`send_message`] only computes the
/// wire bytes.  The connection holds no message boundary state across
/// calls other than this internal read buffer.
///
/// [`feed`]: Connection::feed
/// [`close_input`]: Connection::close_input
/// [`try_receive`]: Connection::try_receive
/// [`send_message`]: Connection::send_message
pub struct Connection {
    buf: Vec<u8>,
    closed: bool,
}

impl View for Connection {
    type V = ConnectionModel;

    closed spec fn view(&self) -> ConnectionModel {
        ConnectionModel { buffered: self.buf@, closed: self.closed }
    }
}

impl Connection {
    /// A fresh connection: nothing buffered, stream open.
    pub fn new() -> (c: Connection)
        ensures
            c@.buffered == Seq::<u8>::empty(),
            !c@.closed,
    {
        Connection { buf: Vec::new(), closed: false }
    }

    /// Computes the wire bytes for one outgoing message: the message
    /// followed by one delimiter, to be written and flushed as a whole.
    pub fn send_message(&self, message: &Vec<u8>) -> (wire: Vec<u8>)
        requires
            is_message(message@),
        ensures
            wire@ == framed(message@),
    {
        frame_message(message)
    }

    /// Hands the connection one chunk of bytes read from the stream; the
    /// chunk joins the read buffer unchanged.
    pub fn feed(&mut self, chunk: &Vec<u8>)
        ensures
            final(self)@.buffered == old(self)@.buffered + chunk@,
            final(self)@.closed == old(self)@.closed,
    {
        crate::framing::append_bytes(&mut self.buf, chunk);
    }

    /// Records that the stream has ended: a read returned zero bytes.
    /// Whatever is buffered stays buffered.
    pub fn close_input(&mut self)
        ensures
            final(self)@.buffered == old(self)@.buffered,
            final(self)@.closed,
    {
        self.closed = true;
    }

    /// Takes the first complete line out of the read buffer, with its
    /// delimiter stripped.
    ///
    /// Returns `Ok(Some(line))` exactly when a delimiter is buffered: the
    /// line is the bytes before the first one, and the buffer keeps what
    /// followed it.  With no complete line buffered, returns
    /// `Err(ConnectionClosed)` when the stream has ended — a zero-length
    /// read is a clean close, never an attempt to strip a delimiter that
    /// is not there — and `Ok(None)` (read more first) when it has not.
    pub fn try_receive(&mut self) -> (r: Result<Option<Vec<u8>>, ProtocolError>)
        ensures
            final(self)@.closed == old(self)@.closed,
            match r {
                Ok(Some(m)) => {
                    &&& has_delim(old(self)@.buffered)
                    &&& m@ == line_of(old(self)@.buffered)
                    &&& is_message(m@)
                    &&& final(self)@.buffered == rest_of(old(self)@.buffered)
                },
                Ok(None) => {
                    &&& !has_delim(old(self)@.buffered)
                    &&& !old(self)@.closed
                    &&& final(self)@.buffered == old(self)@.buffered
                },
                Err(e) => {
                    &&& e == ProtocolError::ConnectionClosed
                    &&& !has_delim(old(self)@.buffered)
                    &&& old(self)@.closed
                    &&& final(self)@.buffered == old(self)@.buffered
                },
            },
    {
        match find_delim(&self.buf) {
            Some(i) => {
                proof {
                    lemma_first_delim_unique(self.buf@, i as int);
                }
                let n = self.buf.len();
                let line = copy_range(&self.buf, 0, i);
                let rest = copy_range(&self.buf, i + 1, n);
                proof {
                    lemma_first_delim(old(self)@.buffered);
                    assert(is_message(line@));
                }
                self.buf = rest;
                Ok(Some(line))
            },
            None => {
                if self.closed {
                    Err(ProtocolError::ConnectionClosed)
                } else {
                    Ok(None)
                }
            },
        }
    }
}

/// Finds the first delimiter in `v`, if any.
fn find_delim(v: &Vec<u8>) -> (r: Option<usize>)
    ensures
        match r {
            Some(i) => {
                &&& i < v@.len()
                &&& v@[i as int] == DELIM
                &&& forall|j: int| 0 <= j < i ==> v@[j] != DELIM
            },
            None => !has_delim(v@),
        },
{
    let n = v.len();
    let mut i: usize = 0;
    while i < n
        invariant
            n == v@.len(),
            i <= n,
            forall|j: int| 0 <= j < i ==> v@[j] != DELIM,
        decreases n - i,
    {
        if v[i] == DELIM {
            return Some(i);
        }
        i = i + 1;
    }
    None
}

} // verus!
