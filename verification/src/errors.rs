use vstd::prelude::*;

verus! {

/// The error taxonomy of the echo protocol.
///
/// `ConnectionError` covers a failure to establish or accept a connection,
/// `TimeoutError` a connect attempt that exceeded its caller-chosen deadline,
/// `IOError` a read or write failure on an established connection, and
/// `ConnectionClosed` a clean end of stream by the peer (a zero-length read).
/// `ConnectionClosed` is kept apart from `IOError` so that a server handler
/// can end quietly on a clean disconnect instead of reporting a fault.
#[derive(Clone, Copy, Debug, PartialEq, Eq, Structural)]
pub enum ProtocolError {
    ConnectionError,
    TimeoutError,
    IOError,
    ConnectionClosed,
}

impl ProtocolError {
    /// A short diagnostic text, one per variant.
    pub fn describe(&self) -> (r: &'static str)
        ensures
            *self is ConnectionError ==> r@ == "connection error"@,
            *self is TimeoutError ==> r@ == "connection timed out"@,
            *self is IOError ==> r@ == "i/o error"@,
            *self is ConnectionClosed ==> r@ == "connection closed by peer"@,
    {
        match self {
            ProtocolError::ConnectionError => "connection error",
            ProtocolError::TimeoutError => "connection timed out",
            ProtocolError::IOError => "i/o error",
            ProtocolError::ConnectionClosed => "connection closed by peer",
        }
    }
}

} // verus!
