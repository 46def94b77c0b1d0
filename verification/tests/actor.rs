use peripheral_core::delivery::DeliveryStatus;
use peripheral_core::delivery::RetryAction;
use peripheral_core::dispatch::Actor;
use peripheral_core::dispatch::Buttons;
use peripheral_core::dispatch::Env;
use peripheral_core::dispatch::InputSample;
use peripheral_core::dispatch::Outcome;
use peripheral_core::dispatch::advertise_message;
use peripheral_core::dispatch::broadcast_addr;
use peripheral_core::errors::RadioError;
use peripheral_core::errors::SensorError;
use peripheral_core::proto::Request;
use peripheral_core::proto::Response;

const LOCAL: [u8; 6] = [2, 0, 0, 0, 0, 1];
const PEER_A: [u8; 6] = [1, 2, 3, 4, 5, 6];
const PEER_B: [u8; 6] = [6, 5, 4, 3, 2, 1];
const PEER_C: [u8; 6] = [7, 7, 7, 7, 7, 7];

fn all_ok() -> Env {
    Env {
        power_ok: true,
        callback: Ok(()),
        send: Ok(()),
        peer_add: Ok(()),
        incoming: None,
        input: Ok(InputSample {
            touch: None,
            buttons: Buttons { s: false, e: false, w: false, n: false, menu: false },
        }),
        wifi_ok: true,
        tcp_ok: true,
    }
}

fn incoming(src: [u8; 6], data: &[u8]) -> Env {
    let mut env = all_ok();
    env.incoming = Some(peripheral_core::dispatch::Packet { src, data: data.to_vec() });
    env
}

fn reply(out: Outcome) -> Response {
    match out {
        Outcome::Reply(resp) => resp,
        Outcome::WouldBlock => panic!("expected a reply, got WouldBlock"),
    }
}

fn error_text(out: Outcome) -> String {
    match reply(out) {
        Response::Error(text) => text,
        other => panic!("expected an error response, got {other:?}"),
    }
}

#[test]
fn net_start_replies_started() {
    let mut actor = Actor::new(LOCAL);
    let out = actor.handle(Request::NetStart, all_ok());
    assert!(matches!(reply(out), Response::NetStarted));
}

#[test]
fn net_start_power_failure_is_reported() {
    let mut actor = Actor::new(LOCAL);
    let mut env = all_ok();
    env.power_ok = false;
    assert_eq!(error_text(actor.handle(Request::NetStart, env)), "failed to exit power saving mode");
}

#[test]
fn net_start_callback_failure_is_reported() {
    let mut actor = Actor::new(LOCAL);
    let mut env = all_ok();
    env.callback = Err(RadioError::InternalError);
    assert_eq!(error_text(actor.handle(Request::NetStart, env)), "esp-now: internal error");
}

#[test]
fn net_stop_failures_are_reported() {
    let mut actor = Actor::new(LOCAL);
    let mut env = all_ok();
    env.power_ok = false;
    assert_eq!(error_text(actor.handle(Request::NetStop, env)), "failed to enter power saving mode");
    let mut env = all_ok();
    env.callback = Err(RadioError::WifiDisconnected);
    assert_eq!(error_text(actor.handle(Request::NetStop, env)), "wifi init: disconnected");
}

#[test]
fn local_addr_is_reported() {
    let mut actor = Actor::new(LOCAL);
    match reply(actor.handle(Request::NetLocalAddr, all_ok())) {
        Response::NetLocalAddr(addr) => assert_eq!(addr, LOCAL),
        other => panic!("unexpected response {other:?}"),
    }
}

#[test]
fn advertise_broadcasts_the_handshake() {
    let (dest, payload) = advertise_message();
    assert_eq!(dest, [255u8; 6]);
    assert_eq!(dest, broadcast_addr());
    assert_eq!(payload, b"HELLO".to_vec());
    let mut actor = Actor::new(LOCAL);
    assert!(matches!(reply(actor.handle(Request::NetAdvertise, all_ok())), Response::NetAdvertised));
    let mut env = all_ok();
    env.send = Err(RadioError::SendFailed);
    assert_eq!(
        error_text(actor.handle(Request::NetAdvertise, env)),
        "esp-now: failed to send message"
    );
}

#[test]
fn send_hands_off_to_the_engine() {
    let mut actor = Actor::new(LOCAL);
    let out = actor.handle(Request::NetSend(PEER_A, vec![1, 2]), all_ok());
    assert!(matches!(reply(out), Response::NetSent));
    match reply(actor.handle(Request::NetSendStatus(PEER_A), all_ok())) {
        Response::NetSendStatus(st) => assert_eq!(st, DeliveryStatus::Sending(0)),
        other => panic!("unexpected response {other:?}"),
    }
}

#[test]
fn send_rejected_by_transport_records_nothing() {
    let mut actor = Actor::new(LOCAL);
    let mut env = all_ok();
    env.send = Err(RadioError::NotInitialized);
    assert_eq!(
        error_text(actor.handle(Request::NetSend(PEER_A, vec![1]), env)),
        "esp-now: not initialized"
    );
    match reply(actor.handle(Request::NetSendStatus(PEER_A), all_ok())) {
        Response::NetSendStatus(st) => assert_eq!(st, DeliveryStatus::Empty),
        other => panic!("unexpected response {other:?}"),
    }
}

#[test]
fn second_send_to_same_peer_blocks_until_resolved() {
    let mut actor = Actor::new(LOCAL);
    let out = actor.handle(Request::NetSend(PEER_A, vec![1]), all_ok());
    assert!(matches!(reply(out), Response::NetSent));
    let out = actor.handle(Request::NetSend(PEER_A, vec![2]), all_ok());
    assert!(matches!(out, Outcome::WouldBlock));
    // a send to another peer is not held up
    let out = actor.handle(Request::NetSend(PEER_B, vec![3]), all_ok());
    assert!(matches!(reply(out), Response::NetSent));
    // the acknowledgment resolves the first message; the retry clears
    let act = actor.send_callback(&PEER_A, true);
    assert!(matches!(act, RetryAction::Ignored));
    let out = actor.handle(Request::NetSend(PEER_A, vec![2]), all_ok());
    assert!(matches!(reply(out), Response::NetSent));
}

#[test]
fn send_callback_failure_drives_retries() {
    let mut actor = Actor::new(LOCAL);
    let out = actor.handle(Request::NetSend(PEER_A, vec![5, 6]), all_ok());
    assert!(matches!(reply(out), Response::NetSent));
    let act = actor.send_callback(&PEER_A, false);
    match act {
        RetryAction::Resend(payload) => assert_eq!(payload, vec![5, 6]),
        other => panic!("unexpected action {other:?}"),
    }
    match reply(actor.handle(Request::NetSendStatus(PEER_A), all_ok())) {
        Response::NetSendStatus(st) => assert_eq!(st, DeliveryStatus::Sending(1)),
        other => panic!("unexpected response {other:?}"),
    }
}

#[test]
fn unknown_peer_with_handshake_is_admitted_and_surfaced() {
    let mut actor = Actor::new(LOCAL);
    match reply(actor.handle(Request::NetRecv, incoming(PEER_A, b"HELLO"))) {
        Response::NetIncoming(src, data) => {
            assert_eq!(src, PEER_A);
            assert_eq!(data, b"HELLO".to_vec());
        },
        other => panic!("unexpected response {other:?}"),
    }
    // the peer is now known: any payload from it is surfaced
    match reply(actor.handle(Request::NetRecv, incoming(PEER_A, b"data"))) {
        Response::NetIncoming(src, data) => {
            assert_eq!(src, PEER_A);
            assert_eq!(data, b"data".to_vec());
        },
        other => panic!("unexpected response {other:?}"),
    }
}

#[test]
fn unknown_peer_with_other_payload_is_discarded() {
    let mut actor = Actor::new(LOCAL);
    let out = actor.handle(Request::NetRecv, incoming(PEER_A, b"HELLO!"));
    assert!(matches!(reply(out), Response::NetNoIncoming));
    // still unknown: an ordinary payload is again discarded
    let out = actor.handle(Request::NetRecv, incoming(PEER_A, b"data"));
    assert!(matches!(reply(out), Response::NetNoIncoming));
}

#[test]
fn admission_failure_at_the_driver_is_reported() {
    let mut actor = Actor::new(LOCAL);
    let mut env = incoming(PEER_A, b"HELLO");
    env.peer_add = Err(RadioError::PeerListFull);
    assert_eq!(error_text(actor.handle(Request::NetRecv, env)), "esp-now: peer list is full");
    // the table was not grown: the same sender still falls under admission
    let out = actor.handle(Request::NetRecv, incoming(PEER_A, b"data"));
    assert!(matches!(reply(out), Response::NetNoIncoming));
}

#[test]
fn recv_without_packet_reports_no_incoming() {
    let mut actor = Actor::new(LOCAL);
    let out = actor.handle(Request::NetRecv, all_ok());
    assert!(matches!(reply(out), Response::NetNoIncoming));
}

#[test]
fn stop_drains_peers() {
    let mut actor = Actor::new(LOCAL);
    for peer in [PEER_A, PEER_B, PEER_C] {
        let out = actor.handle(Request::NetRecv, incoming(peer, b"HELLO"));
        assert!(matches!(reply(out), Response::NetIncoming(_, _)));
    }
    let out = actor.handle(Request::NetStop, all_ok());
    assert!(matches!(reply(out), Response::NetStopped));
    // the peers are gone: their packets fall under admission again
    let out = actor.handle(Request::NetRecv, incoming(PEER_B, b"data"));
    assert!(matches!(reply(out), Response::NetNoIncoming));
    // a second stop has nothing to drain and still succeeds
    let out = actor.handle(Request::NetStop, all_ok());
    assert!(matches!(reply(out), Response::NetStopped));
}

#[test]
fn read_input_packs_the_buttons() {
    let mut actor = Actor::new(LOCAL);
    let mut env = all_ok();
    env.input = Ok(InputSample {
        touch: Some((123, 456)),
        buttons: Buttons { s: true, e: false, w: false, n: true, menu: false },
    });
    match reply(actor.handle(Request::ReadInput, env)) {
        Response::Input(touch, mask) => {
            assert_eq!(touch, Some((123, 456)));
            assert_eq!(mask, 0b01001);
        },
        other => panic!("unexpected response {other:?}"),
    }
    let mut env = all_ok();
    env.input = Ok(InputSample {
        touch: None,
        buttons: Buttons { s: true, e: true, w: true, n: true, menu: true },
    });
    match reply(actor.handle(Request::ReadInput, env)) {
        Response::Input(touch, mask) => {
            assert_eq!(touch, None);
            assert_eq!(mask, 0b11111);
        },
        other => panic!("unexpected response {other:?}"),
    }
}

#[test]
fn read_input_sensor_failure_is_reported() {
    let mut actor = Actor::new(LOCAL);
    let mut env = all_ok();
    env.input = Err(SensorError::DmaOverflow);
    assert_eq!(error_text(actor.handle(Request::ReadInput, env)), "spi: dmi: overflow");
}

#[test]
fn wifi_and_tcp_requests_are_routed() {
    let mut actor = Actor::new(LOCAL);
    let req = Request::WifiConnect("net".to_string(), "pass".to_string());
    assert!(matches!(reply(actor.handle(req, all_ok())), Response::WifiConnected));
    let mut env = all_ok();
    env.wifi_ok = false;
    let req = Request::WifiConnect("net".to_string(), "pass".to_string());
    assert_eq!(error_text(actor.handle(req, env)), "failed to connect to wifi");
    assert!(matches!(
        reply(actor.handle(Request::TcpConnect(0xC0A84501, 8080), all_ok())),
        Response::TcpConnected
    ));
    let mut env = all_ok();
    env.tcp_ok = false;
    assert_eq!(
        error_text(actor.handle(Request::TcpConnect(0xC0A84501, 8080), env)),
        "failed to open tcp connection"
    );
    assert!(matches!(reply(actor.handle(Request::TcpClose, all_ok())), Response::TcpClosed));
}
