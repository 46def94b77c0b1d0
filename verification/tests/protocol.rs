use firefly_types::Encode;
use firefly_types::spi::Request as WireRequest;

use peripheral_core::codec::FrameOutcome;
use peripheral_core::codec::decode_request;
use peripheral_core::codec::frame_response;
use peripheral_core::codec::read_response;
use peripheral_core::codec::too_big_response;
use peripheral_core::delivery::DeliveryStatus;
use peripheral_core::framing::frame_payload;
use peripheral_core::framing::unframe;
use peripheral_core::proto::Request;
use peripheral_core::proto::Response;

const ADDR: [u8; 6] = [1, 2, 3, 4, 5, 6];

fn frame_of(resp: &Response) -> Vec<u8> {
    match frame_response(resp) {
        FrameOutcome::Send(frame) => frame,
        other => panic!("expected a frame, got {other:?}"),
    }
}

fn round_trip(resp: Response) {
    let frame = frame_of(&resp);
    let back = read_response(&frame).expect("the frame should decode");
    assert!(back.same_as(&resp), "round trip changed {resp:?} into {back:?}");
}

#[test]
fn frame_payload_prefixes_the_length() {
    assert_eq!(frame_payload(&[]), Some(vec![0u8]));
    assert_eq!(frame_payload(&[7, 8]), Some(vec![2u8, 7, 8]));
    let big = vec![1u8; 255];
    let framed = frame_payload(&big).unwrap();
    assert_eq!(framed.len(), 256);
    assert_eq!(framed[0], 255);
    assert_eq!(frame_payload(&vec![1u8; 256]), None);
}

#[test]
fn unframe_checks_the_length() {
    assert_eq!(unframe(&[]), None);
    assert_eq!(unframe(&[0]), Some(vec![]));
    assert_eq!(unframe(&[2, 7, 8]), Some(vec![7, 8]));
    assert_eq!(unframe(&[2, 7]), None);
    assert_eq!(unframe(&[1, 7, 8]), None);
}

#[test]
fn framing_round_trips() {
    let payload = vec![5u8, 6, 7, 8];
    let framed = frame_payload(&payload).unwrap();
    assert_eq!(unframe(&framed), Some(payload));
}

#[test]
fn responses_round_trip_through_the_codec() {
    round_trip(Response::Error("boom".to_string()));
    round_trip(Response::NetStarted);
    round_trip(Response::NetStopped);
    round_trip(Response::NetLocalAddr(ADDR));
    round_trip(Response::NetAdvertised);
    round_trip(Response::NetIncoming(ADDR, vec![1, 2, 3]));
    round_trip(Response::NetNoIncoming);
    round_trip(Response::NetSent);
    round_trip(Response::NetSendStatus(DeliveryStatus::Empty));
    round_trip(Response::NetSendStatus(DeliveryStatus::Sending(3)));
    round_trip(Response::NetSendStatus(DeliveryStatus::Delivered(0)));
    round_trip(Response::NetSendStatus(DeliveryStatus::Failed));
    round_trip(Response::Input(Some((100, 200)), 0b10101));
    round_trip(Response::Input(None, 0));
    round_trip(Response::WifiConnected);
    round_trip(Response::TcpConnected);
    round_trip(Response::TcpClosed);
}

#[test]
fn empty_payload_round_trips() {
    round_trip(Response::NetIncoming(ADDR, vec![]));
}

#[test]
fn near_limit_payload_round_trips() {
    // 6 address bytes and codec overhead leave this just under the cap
    round_trip(Response::NetIncoming(ADDR, vec![9u8; 240]));
}

#[test]
fn oversized_response_is_replaced_by_the_error_frame() {
    let resp = Response::NetIncoming(ADDR, vec![1u8; 300]);
    let frame = frame_of(&resp);
    let back = read_response(&frame).expect("the substitute frame should decode");
    assert!(back.same_as(&too_big_response()));
    match back {
        Response::Error(text) => assert_eq!(text, "response is too big"),
        other => panic!("unexpected response {other:?}"),
    }
}

#[test]
fn oversized_error_response_is_silenced_not_recursed() {
    let resp = Response::Error("x".repeat(300));
    assert!(matches!(frame_response(&resp), FrameOutcome::Silent));
}

#[test]
fn requests_decode_from_the_wire() {
    let cases: Vec<WireRequest> = vec![
        WireRequest::NetStart,
        WireRequest::NetStop,
        WireRequest::NetLocalAddr,
        WireRequest::NetAdvertise,
        WireRequest::NetRecv,
        WireRequest::ReadInput,
        WireRequest::TcpClose,
    ];
    for wire in cases {
        let bytes = wire.encode_vec().unwrap();
        let req = decode_request(&bytes).expect("the request should decode");
        match (&wire, &req) {
            (WireRequest::NetStart, Request::NetStart) => {},
            (WireRequest::NetStop, Request::NetStop) => {},
            (WireRequest::NetLocalAddr, Request::NetLocalAddr) => {},
            (WireRequest::NetAdvertise, Request::NetAdvertise) => {},
            (WireRequest::NetRecv, Request::NetRecv) => {},
            (WireRequest::ReadInput, Request::ReadInput) => {},
            (WireRequest::TcpClose, Request::TcpClose) => {},
            (wire, req) => panic!("{wire:?} decoded into {req:?}"),
        }
    }
}

#[test]
fn requests_with_fields_decode_from_the_wire() {
    let data = [7u8, 8, 9];
    let bytes = WireRequest::NetSend(ADDR, &data).encode_vec().unwrap();
    match decode_request(&bytes) {
        Some(Request::NetSend(addr, payload)) => {
            assert_eq!(addr, ADDR);
            assert_eq!(payload, data.to_vec());
        },
        other => panic!("unexpected decode {other:?}"),
    }
    let bytes = WireRequest::NetSendStatus(ADDR).encode_vec().unwrap();
    match decode_request(&bytes) {
        Some(Request::NetSendStatus(addr)) => assert_eq!(addr, ADDR),
        other => panic!("unexpected decode {other:?}"),
    }
    let bytes = WireRequest::WifiConnect("net", "secret").encode_vec().unwrap();
    match decode_request(&bytes) {
        Some(Request::WifiConnect(ssid, pass)) => {
            assert_eq!(ssid, "net");
            assert_eq!(pass, "secret");
        },
        other => panic!("unexpected decode {other:?}"),
    }
    let bytes = WireRequest::TcpConnect(0xC0A84501, 31337).encode_vec().unwrap();
    match decode_request(&bytes) {
        Some(Request::TcpConnect(ip, port)) => {
            assert_eq!(ip, 0xC0A84501);
            assert_eq!(port, 31337);
        },
        other => panic!("unexpected decode {other:?}"),
    }
}

#[test]
fn unserved_requests_do_not_decode() {
    let bytes = WireRequest::WifiScan.encode_vec().unwrap();
    assert!(decode_request(&bytes).is_none());
    let bytes = WireRequest::FirmwareInfo.encode_vec().unwrap();
    assert!(decode_request(&bytes).is_none());
}

#[test]
fn garbage_does_not_decode() {
    assert!(decode_request(&[0xFF, 0xFF, 0xFF, 0xFF]).is_none());
    assert!(read_response(&[3, 0xFF, 0xFF, 0xFF]).is_none());
}
