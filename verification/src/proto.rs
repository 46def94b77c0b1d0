//! The typed protocol spoken over the wired link.
//!
//! These are the library's own images of the requests the main board sends
//! and the responses this firmware returns.  Contracts speak of them
//! through the ghost views [`ReqV`] and [`RespV`], whose fields are
//! mathematical sequences, so that two buffers with equal contents are one
//! and the same value to a specification.

use vstd::prelude::*;

use crate::Addr;
use crate::delivery::DeliveryStatus;

verus! {

/// A request from the main board.
#[derive(Clone, Debug)]
pub enum Request {
    /// Exit power saving and start the delivery engine.
    NetStart,
    /// Enter power saving, drain the peer table, stop the delivery engine.
    NetStop,
    /// Report the local radio address.
    NetLocalAddr,
    /// Broadcast the handshake token.
    NetAdvertise,
    /// Poll one inbound packet.
    NetRecv,
    /// Send a payload to a peer through the delivery engine.
    NetSend(Addr, Vec<u8>),
    /// Query the delivery ledger for a peer.
    NetSendStatus(Addr),
    /// Sample the buttons and the touch pad.
    ReadInput,
    /// Configure station credentials and associate.
    WifiConnect(String, String),
    /// Open a TCP connection to the given address and port.
    TcpConnect(u32, u16),
    /// Abort the open TCP connection.
    TcpClose,
}

/// Ghost image of a request.
pub ghost enum ReqV {
    NetStart,
    NetStop,
    NetLocalAddr,
    NetAdvertise,
    NetRecv,
    NetSend(Seq<u8>, Seq<u8>),
    NetSendStatus(Seq<u8>),
    ReadInput,
    WifiConnect(Seq<char>, Seq<char>),
    TcpConnect(u32, u16),
    TcpClose,
}

impl View for Request {
    type V = ReqV;

    open spec fn view(&self) -> ReqV {
        match self {
            Request::NetStart => ReqV::NetStart,
            Request::NetStop => ReqV::NetStop,
            Request::NetLocalAddr => ReqV::NetLocalAddr,
            Request::NetAdvertise => ReqV::NetAdvertise,
            Request::NetRecv => ReqV::NetRecv,
            Request::NetSend(a, d) => ReqV::NetSend(a@, d@),
            Request::NetSendStatus(a) => ReqV::NetSendStatus(a@),
            Request::ReadInput => ReqV::ReadInput,
            Request::WifiConnect(s, p) => ReqV::WifiConnect(s@, p@),
            Request::TcpConnect(ip, port) => ReqV::TcpConnect(*ip, *port),
            Request::TcpClose => ReqV::TcpClose,
        }
    }
}

/// A response to the main board.
#[derive(Clone, Debug)]
pub enum Response {
    /// A request failed; the text says how.
    Error(String),
    NetStarted,
    NetStopped,
    NetLocalAddr(Addr),
    NetAdvertised,
    /// An inbound packet: sender address and payload.
    NetIncoming(Addr, Vec<u8>),
    NetNoIncoming,
    NetSent,
    NetSendStatus(DeliveryStatus),
    /// Touch coordinates, if the pad is touched, and the button bitmask.
    Input(Option<(u16, u16)>, u8),
    WifiConnected,
    TcpConnected,
    TcpClosed,
}

/// Ghost image of a response.
pub ghost enum RespV {
    Error(Seq<char>),
    NetStarted,
    NetStopped,
    NetLocalAddr(Seq<u8>),
    NetAdvertised,
    NetIncoming(Seq<u8>, Seq<u8>),
    NetNoIncoming,
    NetSent,
    NetSendStatus(DeliveryStatus),
    Input(Option<(u16, u16)>, u8),
    WifiConnected,
    TcpConnected,
    TcpClosed,
}

impl View for Response {
    type V = RespV;

    open spec fn view(&self) -> RespV {
        match self {
            Response::Error(s) => RespV::Error(s@),
            Response::NetStarted => RespV::NetStarted,
            Response::NetStopped => RespV::NetStopped,
            Response::NetLocalAddr(a) => RespV::NetLocalAddr(a@),
            Response::NetAdvertised => RespV::NetAdvertised,
            Response::NetIncoming(a, d) => RespV::NetIncoming(a@, d@),
            Response::NetNoIncoming => RespV::NetNoIncoming,
            Response::NetSent => RespV::NetSent,
            Response::NetSendStatus(st) => RespV::NetSendStatus(*st),
            Response::Input(t, b) => RespV::Input(*t, *b),
            Response::WifiConnected => RespV::WifiConnected,
            Response::TcpConnected => RespV::TcpConnected,
            Response::TcpClosed => RespV::TcpClosed,
        }
    }
}

impl Response {
    /// Whether two responses carry the same content.
    pub fn same_as(&self, other: &Response) -> (r: bool)
        ensures
            r == (self@ == other@),
    {
        match (self, other) {
            (Response::Error(a), Response::Error(b)) => *a == *b,
            (Response::NetStarted, Response::NetStarted) => true,
            (Response::NetStopped, Response::NetStopped) => true,
            (Response::NetLocalAddr(a), Response::NetLocalAddr(b)) => crate::delivery::addr_eq(
                a,
                b,
            ),
            (Response::NetAdvertised, Response::NetAdvertised) => true,
            (Response::NetIncoming(a, d), Response::NetIncoming(b, e)) => {
                crate::delivery::addr_eq(a, b) && bytes_eq(d, e)
            },
            (Response::NetNoIncoming, Response::NetNoIncoming) => true,
            (Response::NetSent, Response::NetSent) => true,
            (Response::NetSendStatus(a), Response::NetSendStatus(b)) => *a == *b,
            (Response::Input(t, m), Response::Input(u, n)) => {
                let touch_same = match (t, u) {
                    (None, None) => true,
                    (Some(p), Some(q)) => p.0 == q.0 && p.1 == q.1,
                    _ => false,
                };
                touch_same && *m == *n
            },
            (Response::WifiConnected, Response::WifiConnected) => true,
            (Response::TcpConnected, Response::TcpConnected) => true,
            (Response::TcpClosed, Response::TcpClosed) => true,
            _ => false,
        }
    }
}

/// Compare two byte buffers element by element.
pub fn bytes_eq(a: &Vec<u8>, b: &Vec<u8>) -> (r: bool)
    ensures
        r == (a@ == b@),
{
    if a.len() != b.len() {
        return false;
    }
    let mut i: usize = 0;
    while i < a.len()
        invariant
            i <= a@.len(),
            a@.len() == b@.len(),
            forall|j: int| 0 <= j < i ==> a@[j] == b@[j],
        decreases a@.len() - i,
    {
        if a[i] != b[i] {
            return false;
        }
        i = i + 1;
    }
    proof {
        assert(a@ =~= b@);
    }
    true
}

} // verus!
