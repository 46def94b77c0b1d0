//! Typed codec over the wired link.
//!
//! The bit layout of requests and responses belongs to the outside codec
//! crate; this module calls it behind trusted wrappers whose contracts name
//! the encoded and decoded values ([`req_of`], [`resp_of`], [`resp_wire`]).
//! Everything around those calls is verified: the routing of variants, the
//! length-prefixed framing, and the substitution of a fixed error response
//! when a response does not fit one frame.

use vstd::prelude::*;
use vstd::string::StringExecFns;

use crate::delivery::DeliveryStatus;
use crate::framing::MAX_FRAME_PAYLOAD;
use crate::framing::frame_of;
use crate::framing::frame_payload;
use crate::framing::lemma_frame_round_trip;
use crate::framing::unframe;
use crate::framing::unframed;
use crate::proto::ReqV;
use crate::proto::Request;
use crate::proto::RespV;
use crate::proto::Response;

use firefly_types::Encode;
use firefly_types::spi::Request as WireRequest;
use firefly_types::spi::Response as WireResponse;
use firefly_types::spi::SendStatus as WireSendStatus;

verus! {

/// The typed request encoded in a frame's payload, if the payload decodes
/// to a request this dispatcher serves; the result depends on the bytes
/// alone.
pub uninterp spec fn req_of(bytes: Seq<u8>) -> Option<ReqV>;

/// The typed response encoded in a frame's payload, if the payload decodes
/// to one of the responses this dispatcher produces; the result depends on
/// the bytes alone.
pub uninterp spec fn resp_of(bytes: Seq<u8>) -> Option<RespV>;

/// The serialized form of a response; it depends on the response alone.
pub uninterp spec fn resp_wire(r: RespV) -> Seq<u8>;

/// The requests that drive the radio.
pub open spec fn is_net_req(q: ReqV) -> bool {
    q is NetStart || q is NetStop || q is NetLocalAddr || q is NetAdvertise || q is NetRecv
        || q is NetSend || q is NetSendStatus
}

/// The responses that carry no field besides a short text or nothing.
pub open spec fn is_plain_resp(v: RespV) -> bool {
    v is Error || v is NetStarted || v is NetStopped || v is NetAdvertised || v is NetNoIncoming
        || v is NetSent || v is WifiConnected
}

/// The responses that carry an address, a payload or a sample.
pub open spec fn is_payload_resp(v: RespV) -> bool {
    v is NetLocalAddr || v is NetIncoming || v is Input || v is TcpConnected || v is TcpClosed
}

/// The response that carries a delivery status.
pub open spec fn is_status_resp(v: RespV) -> bool {
    v is NetSendStatus
}

/// Relies on the outside codec's `Request::decode`: parses the payload into
/// a typed request.  This wrapper surfaces the radio requests and leaves
/// the rest to [`decode_misc_request`].
#[verifier::external_body]
fn decode_net_request(bytes: &[u8]) -> (r: Option<Request>)
    ensures
        r matches Some(q) ==> req_of(bytes@) == Some(q@) && is_net_req(q@),
        r is None ==> (req_of(bytes@) matches Some(v) ==> !is_net_req(v)),
{
    match WireRequest::decode(bytes) {
        Ok(WireRequest::NetStart) => Some(Request::NetStart),
        Ok(WireRequest::NetStop) => Some(Request::NetStop),
        Ok(WireRequest::NetLocalAddr) => Some(Request::NetLocalAddr),
        Ok(WireRequest::NetAdvertise) => Some(Request::NetAdvertise),
        Ok(WireRequest::NetRecv) => Some(Request::NetRecv),
        Ok(WireRequest::NetSend(a, d)) => Some(Request::NetSend(a, d.to_vec())),
        Ok(WireRequest::NetSendStatus(a)) => Some(Request::NetSendStatus(a)),
        _ => None,
    }
}

/// Relies on the outside codec's `Request::decode`: parses the payload into
/// a typed request.  This wrapper surfaces the input, wifi and TCP
/// requests.
#[verifier::external_body]
fn decode_misc_request(bytes: &[u8]) -> (r: Option<Request>)
    ensures
        r matches Some(q) ==> req_of(bytes@) == Some(q@) && !is_net_req(q@),
        r is None ==> (req_of(bytes@) matches Some(v) ==> is_net_req(v)),
{
    match WireRequest::decode(bytes) {
        Ok(WireRequest::ReadInput) => Some(Request::ReadInput),
        Ok(WireRequest::WifiConnect(s, p)) => Some(Request::WifiConnect(s.into(), p.into())),
        Ok(WireRequest::TcpConnect(ip, port)) => Some(Request::TcpConnect(ip, port)),
        Ok(WireRequest::TcpClose) => Some(Request::TcpClose),
        _ => None,
    }
}

/// Decode a frame's payload into a request of this dispatcher.
pub fn decode_request(bytes: &[u8]) -> (r: Option<Request>)
    ensures
        r matches Some(q) ==> req_of(bytes@) == Some(q@),
        r is None ==> req_of(bytes@) is None,
{
    match decode_net_request(bytes) {
        Some(q) => Some(q),
        None => {
            let r = decode_misc_request(bytes);
            proof {
                if r is None {
                    match req_of(bytes@) {
                        Some(v) => {
                            assert(!is_net_req(v));
                            assert(is_net_req(v));
                        },
                        None => {},
                    }
                }
            }
            r
        },
    }
}

/// Relies on the outside codec's `Response::encode_vec`: serializes the
/// field-free responses and the error response.  Its allocating serializer
/// cannot fail for these types, its decoder inverts it, and the fixed
/// substitute response serializes to well under one frame.
#[verifier::external_body]
fn encode_plain_response(resp: &Response) -> (r: Option<Vec<u8>>)
    ensures
        r matches Some(v) ==> v@ == resp_wire(resp@) && resp_of(v@) == Some(resp@),
        r matches Some(v) ==> (resp@ == too_big_view() ==> v@.len() <= MAX_FRAME_PAYLOAD),
        r is None ==> !is_plain_resp(resp@),
{
    let w = match resp {
        Response::Error(s) => WireResponse::Error(s.as_str()),
        Response::NetStarted => WireResponse::NetStarted,
        Response::NetStopped => WireResponse::NetStopped,
        Response::NetAdvertised => WireResponse::NetAdvertised,
        Response::NetNoIncoming => WireResponse::NetNoIncoming,
        Response::NetSent => WireResponse::NetSent,
        Response::WifiConnected => WireResponse::WifiConnected,
        _ => return None,
    };
    w.encode_vec().ok()
}

/// Relies on the outside codec's `Response::encode_vec`: serializes the
/// responses that carry an address, a payload or an input sample.  Its
/// allocating serializer cannot fail for these types, and its decoder
/// inverts it.
#[verifier::external_body]
fn encode_payload_response(resp: &Response) -> (r: Option<Vec<u8>>)
    ensures
        r matches Some(v) ==> v@ == resp_wire(resp@) && resp_of(v@) == Some(resp@),
        r is None ==> !is_payload_resp(resp@),
{
    let w = match resp {
        Response::NetLocalAddr(a) => WireResponse::NetLocalAddr(*a),
        Response::NetIncoming(a, d) => WireResponse::NetIncoming(*a, d),
        Response::Input(t, b) => WireResponse::Input(*t, *b),
        Response::TcpConnected => WireResponse::TcpConnected,
        Response::TcpClosed => WireResponse::TcpClosed,
        _ => return None,
    };
    w.encode_vec().ok()
}

/// Relies on the outside codec's `Response::encode_vec`: serializes the
/// delivery-status response.  Its allocating serializer cannot fail for
/// this type, and its decoder inverts it.
#[verifier::external_body]
fn encode_status_response(resp: &Response) -> (r: Option<Vec<u8>>)
    ensures
        r matches Some(v) ==> v@ == resp_wire(resp@) && resp_of(v@) == Some(resp@),
        r is None ==> !is_status_resp(resp@),
{
    let Response::NetSendStatus(st) = resp else {
        return None;
    };
    let w = match st {
        DeliveryStatus::Sending(n) => WireSendStatus::Sending(*n),
        DeliveryStatus::Delivered(n) => WireSendStatus::Delivered(*n),
        DeliveryStatus::Failed => WireSendStatus::Failed,
        DeliveryStatus::Empty => WireSendStatus::Empty,
    };
    WireResponse::NetSendStatus(w).encode_vec().ok()
}

/// Serialize a response.  Serialization cannot fail for these responses,
/// the emitted bytes decode back to the response, and the fixed substitute
/// response fits one frame.
pub fn encode_response(resp: &Response) -> (r: Vec<u8>)
    ensures
        r@ == resp_wire(resp@),
        resp_of(r@) == Some(resp@),
        resp@ == too_big_view() ==> r@.len() <= MAX_FRAME_PAYLOAD,
{
    let encoded = match resp {
        Response::Error(_) => encode_plain_response(resp),
        Response::NetStarted => encode_plain_response(resp),
        Response::NetStopped => encode_plain_response(resp),
        Response::NetAdvertised => encode_plain_response(resp),
        Response::NetNoIncoming => encode_plain_response(resp),
        Response::NetSent => encode_plain_response(resp),
        Response::WifiConnected => encode_plain_response(resp),
        Response::NetLocalAddr(_) => encode_payload_response(resp),
        Response::NetIncoming(_, _) => encode_payload_response(resp),
        Response::Input(_, _) => encode_payload_response(resp),
        Response::TcpConnected => encode_payload_response(resp),
        Response::TcpClosed => encode_payload_response(resp),
        Response::NetSendStatus(_) => encode_status_response(resp),
    };
    match encoded {
        Some(v) => v,
        None => {
            proof {
                assert(false);
            }
            Vec::new()
        },
    }
}

/// Relies on the outside codec's `Response::decode`: parses a payload back
/// into a typed response.  This wrapper surfaces the field-free responses
/// and the error response.
#[verifier::external_body]
fn decode_plain_response(bytes: &[u8]) -> (r: Option<Response>)
    ensures
        r matches Some(x) ==> resp_of(bytes@) == Some(x@) && is_plain_resp(x@),
        r is None ==> (resp_of(bytes@) matches Some(v) ==> !is_plain_resp(v)),
{
    match WireResponse::decode(bytes) {
        Ok(WireResponse::Error(s)) => Some(Response::Error(s.into())),
        Ok(WireResponse::NetStarted) => Some(Response::NetStarted),
        Ok(WireResponse::NetStopped) => Some(Response::NetStopped),
        Ok(WireResponse::NetAdvertised) => Some(Response::NetAdvertised),
        Ok(WireResponse::NetNoIncoming) => Some(Response::NetNoIncoming),
        Ok(WireResponse::NetSent) => Some(Response::NetSent),
        Ok(WireResponse::WifiConnected) => Some(Response::WifiConnected),
        _ => None,
    }
}

/// Relies on the outside codec's `Response::decode`: parses a payload back
/// into a typed response.  This wrapper surfaces the responses that carry
/// an address, a payload or an input sample.
#[verifier::external_body]
fn decode_payload_response(bytes: &[u8]) -> (r: Option<Response>)
    ensures
        r matches Some(x) ==> resp_of(bytes@) == Some(x@) && is_payload_resp(x@),
        r is None ==> (resp_of(bytes@) matches Some(v) ==> !is_payload_resp(v)),
{
    match WireResponse::decode(bytes) {
        Ok(WireResponse::NetLocalAddr(a)) => Some(Response::NetLocalAddr(a)),
        Ok(WireResponse::NetIncoming(a, d)) => Some(Response::NetIncoming(a, d.to_vec())),
        Ok(WireResponse::Input(t, b)) => Some(Response::Input(t, b)),
        Ok(WireResponse::TcpConnected) => Some(Response::TcpConnected),
        Ok(WireResponse::TcpClosed) => Some(Response::TcpClosed),
        _ => None,
    }
}

/// Relies on the outside codec's `Response::decode`: parses a payload back
/// into a typed response.  This wrapper surfaces the delivery-status
/// response.
#[verifier::external_body]
fn decode_status_response(bytes: &[u8]) -> (r: Option<Response>)
    ensures
        r matches Some(x) ==> resp_of(bytes@) == Some(x@) && is_status_resp(x@),
        r is None ==> (resp_of(bytes@) matches Some(v) ==> !is_status_resp(v)),
{
    let st = match WireResponse::decode(bytes) {
        Ok(WireResponse::NetSendStatus(st)) => st,
        _ => return None,
    };
    let st = match st {
        WireSendStatus::Sending(n) => DeliveryStatus::Sending(n),
        WireSendStatus::Delivered(n) => DeliveryStatus::Delivered(n),
        WireSendStatus::Failed => DeliveryStatus::Failed,
        WireSendStatus::Empty => DeliveryStatus::Empty,
    };
    Some(Response::NetSendStatus(st))
}

/// Decode a frame's payload into a response of this protocol.
pub fn decode_response(bytes: &[u8]) -> (r: Option<Response>)
    ensures
        r matches Some(x) ==> resp_of(bytes@) == Some(x@),
        r is None ==> resp_of(bytes@) is None,
{
    if let Some(x) = decode_plain_response(bytes) {
        return Some(x);
    }
    if let Some(x) = decode_payload_response(bytes) {
        return Some(x);
    }
    let r = decode_status_response(bytes);
    proof {
        if r is None {
            match resp_of(bytes@) {
                Some(v) => {
                    assert(is_plain_resp(v) || is_payload_resp(v) || is_status_resp(v));
                    assert(false);
                },
                None => {},
            }
        }
    }
    r
}

/// The substitute sent in place of a response that does not fit a frame.
pub open spec fn too_big_view() -> RespV {
    RespV::Error("response is too big"@)
}

/// Build the substitute response.
pub fn too_big_response() -> (r: Response)
    ensures
        r@ == too_big_view(),
{
    Response::Error(String::from_str("response is too big"))
}

/// What goes on the wire for a response: its own frame when the serialized
/// form fits, the substitute error frame when it does not, and nothing at
/// all when the response that does not fit is already an error — the
/// substitution never happens twice.
pub open spec fn response_frame(r: RespV) -> Option<Seq<u8>> {
    if resp_wire(r).len() <= MAX_FRAME_PAYLOAD {
        Some(frame_of(resp_wire(r)))
    } else if r is Error {
        None
    } else if resp_wire(too_big_view()).len() <= MAX_FRAME_PAYLOAD {
        Some(frame_of(resp_wire(too_big_view())))
    } else {
        None
    }
}

/// The outcome of framing a response.
#[derive(Debug)]
pub enum FrameOutcome {
    /// Put these bytes on the wire.
    Send(Vec<u8>),
    /// Send nothing: an error response itself did not fit one frame.
    Silent,
}

/// Serialize a response and wrap it into one frame, substituting the fixed
/// error response when the serialized form exceeds the frame payload
/// limit.  Exactly the frame that [`response_frame`] describes goes out,
/// and unwrapping it yields the response back — or the substitute, for a
/// response that did not fit.
pub fn frame_response(resp: &Response) -> (r: FrameOutcome)
    ensures
        response_frame(resp@) matches Some(f) ==> (r matches FrameOutcome::Send(v) && v@ == f),
        response_frame(resp@) is None ==> r is Silent,
        r matches FrameOutcome::Send(v) ==> (unframed(v@) matches Some(p) && resp_of(p) == Some(
            if resp_wire(resp@).len() <= MAX_FRAME_PAYLOAD {
                resp@
            } else {
                too_big_view()
            },
        )),
{
    let encoded = encode_response(resp);
    if encoded.len() <= MAX_FRAME_PAYLOAD {
        proof {
            lemma_frame_round_trip(resp_wire(resp@));
        }
        match frame_payload(encoded.as_slice()) {
            Some(f) => FrameOutcome::Send(f),
            None => {
                proof {
                    assert(false);
                }
                FrameOutcome::Silent
            },
        }
    } else {
        let already_error = matches!(resp, Response::Error(_));
        if already_error {
            FrameOutcome::Silent
        } else {
            let substitute = too_big_response();
            let encoded2 = encode_response(&substitute);
            proof {
                lemma_frame_round_trip(resp_wire(too_big_view()));
            }
            match frame_payload(encoded2.as_slice()) {
                Some(f) => FrameOutcome::Send(f),
                None => {
                    proof {
                        assert(false);
                    }
                    FrameOutcome::Silent
                },
            }
        }
    }
}

/// Framing round trip for responses: a response whose serialized form fits
/// one frame is framed as exactly those bytes, and unwrapping that frame
/// gives them back unchanged.
pub proof fn lemma_response_frame_round_trip(r: RespV)
    requires
        resp_wire(r).len() <= MAX_FRAME_PAYLOAD,
    ensures
        response_frame(r) == Some(frame_of(resp_wire(r))),
        unframed(frame_of(resp_wire(r))) == Some(resp_wire(r)),
{
    crate::framing::lemma_frame_round_trip(resp_wire(r));
}

/// Unwrap one frame and decode the response in it; what the host side of
/// the wired link does with every frame this firmware sends.
pub fn read_response(frame: &[u8]) -> (r: Option<Response>)
    ensures
        r matches Some(x) ==> (unframed(frame@) matches Some(p) && resp_of(p) == Some(x@)),
        r is None ==> (unframed(frame@) is None || (unframed(frame@) matches Some(p) && resp_of(p)
            is None)),
{
    match unframe(frame) {
        None => None,
        Some(payload) => decode_response(payload.as_slice()),
    }
}

} // verus!
