//! The request dispatcher.
//!
//! A pure router keyed on the request kind: it owns the delivery engine,
//! the mirror of the radio's peer table and the power state, and turns one
//! request into one response.  The radio, wifi, TCP and sensor calls that a
//! request needs are made by the caller; their outcomes arrive here as the
//! plain values of an [`Env`], and the dispatcher is verified for every
//! combination of them.  No request can make it fail: every collaborator
//! failure becomes an error response.

use vstd::prelude::*;
use vstd::string::StringExecFns;

use crate::Addr;
use crate::delivery::DeliveryEngine;
use crate::delivery::DeliveryStatus;
use crate::delivery::PendingView;
use crate::delivery::RetryAction;
use crate::delivery::Slot;
use crate::errors::RadioError;
use crate::errors::SensorError;
use crate::errors::describe_radio;
use crate::errors::describe_sensor;
use crate::errors::radio_error_text;
use crate::errors::sensor_error_text;
use crate::peers::Admission;
use crate::peers::PeerTable;
use crate::peers::admission_of;
use crate::peers::classify;
use crate::peers::handshake;
use crate::peers::handshake_token;
use crate::proto::ReqV;
use crate::proto::Request;
use crate::proto::RespV;
use crate::proto::Response;

verus! {

/// The address every radio hears.
pub open spec fn broadcast() -> Seq<u8> {
    seq![255u8, 255u8, 255u8, 255u8, 255u8, 255u8]
}

/// The reserved broadcast address.
pub fn broadcast_addr() -> (r: Addr)
    ensures
        r@ == broadcast(),
{
    let r: Addr = [255, 255, 255, 255, 255, 255];
    proof {
        assert(r@ =~= broadcast());
    }
    r
}

/// What advertising puts on the air: the handshake token, to the broadcast
/// address.
pub fn advertise_message() -> (r: (Addr, Vec<u8>))
    ensures
        r.0@ == broadcast(),
        r.1@ == handshake(),
{
    (broadcast_addr(), handshake_token())
}

/// Whether the radio runs at full power or sleeps.  Not cached by the
/// radio: the dispatcher instructs the driver on every transition.
#[derive(Clone, Copy, PartialEq, Eq, Structural, Debug)]
pub enum PowerState {
    Active,
    PowerSaving,
}

/// One inbound radio packet.
pub struct Packet {
    pub src: Addr,
    pub data: Vec<u8>,
}

/// The five digital inputs.
pub struct Buttons {
    pub s: bool,
    pub e: bool,
    pub w: bool,
    pub n: bool,
    pub menu: bool,
}

/// One sample of the sensors.
pub struct InputSample {
    pub touch: Option<(u16, u16)>,
    pub buttons: Buttons,
}

/// The outcomes of the outside calls a request may need, gathered by the
/// caller.  Only the fields the request kind reads matter to it.
pub struct Env {
    /// The radio accepted the power-mode change.
    pub power_ok: bool,
    /// Whether the acknowledgment callback was (un)registered.
    pub callback: Result<(), RadioError>,
    /// Whether the transport accepted the outgoing send.
    pub send: Result<(), RadioError>,
    /// Whether the radio driver accepted the new peer.
    pub peer_add: Result<(), RadioError>,
    /// The packet polled from the radio, if any.
    pub incoming: Option<Packet>,
    /// What the sensors reported, or how they failed.
    pub input: Result<InputSample, SensorError>,
    /// The wifi controller accepted the credentials and started associating.
    pub wifi_ok: bool,
    /// The TCP socket opened.
    pub tcp_ok: bool,
}

/// The dispatcher's answer: a response to frame, or the instruction to wait
/// until the peer's in-flight message resolves and ask again.
#[derive(Debug)]
pub enum Outcome {
    Reply(Response),
    WouldBlock,
}

/// The button bitmask: one bit per line, south first.
pub open spec fn mask_of(b: Buttons) -> u8 {
    (if b.s {
        1u8
    } else {
        0u8
    }) | (if b.e {
        2u8
    } else {
        0u8
    }) | (if b.w {
        4u8
    } else {
        0u8
    }) | (if b.n {
        8u8
    } else {
        0u8
    }) | (if b.menu {
        16u8
    } else {
        0u8
    })
}

/// Pack the button levels into the bitmask.
pub fn buttons_mask(b: &Buttons) -> (r: u8)
    ensures
        r == mask_of(*b),
{
    (if b.s {
        1u8
    } else {
        0u8
    }) | (if b.e {
        2u8
    } else {
        0u8
    }) | (if b.w {
        4u8
    } else {
        0u8
    }) | (if b.n {
        8u8
    } else {
        0u8
    }) | (if b.menu {
        16u8
    } else {
        0u8
    })
}

/// Each button owns its bit of the mask.
pub proof fn lemma_mask_bits(b: Buttons)
    ensures
        mask_of(b) & 1 == (if b.s {
            1u8
        } else {
            0u8
        }),
        mask_of(b) & 2 == (if b.e {
            2u8
        } else {
            0u8
        }),
        mask_of(b) & 4 == (if b.w {
            4u8
        } else {
            0u8
        }),
        mask_of(b) & 8 == (if b.n {
            8u8
        } else {
            0u8
        }),
        mask_of(b) & 16 == (if b.menu {
            16u8
        } else {
            0u8
        }),
{
    let s: u8 = if b.s {
        1u8
    } else {
        0u8
    };
    let e: u8 = if b.e {
        2u8
    } else {
        0u8
    };
    let w: u8 = if b.w {
        4u8
    } else {
        0u8
    };
    let n: u8 = if b.n {
        8u8
    } else {
        0u8
    };
    let m: u8 = if b.menu {
        16u8
    } else {
        0u8
    };
    assert((s | e | w | n | m) & 1 == s && (s | e | w | n | m) & 2 == e && (s | e | w | n | m) & 4
        == w && (s | e | w | n | m) & 8 == n && (s | e | w | n | m) & 16 == m) by (bit_vector)
        requires
            (s == 1 || s == 0) && (e == 2 || e == 0) && (w == 4 || w == 0) && (n == 8 || n == 0)
                && (m == 16 || m == 0),
    ;
}

/// The dispatcher.
pub struct Actor {
    pub engine: DeliveryEngine,
    pub peers: PeerTable,
    pub power: PowerState,
    pub local: Addr,
}

/// The outcome replies with exactly this response.
pub open spec fn reply_is(out: Outcome, v: RespV) -> bool {
    out matches Outcome::Reply(r) && r@ == v
}

/// The outcome replies with exactly this error text.
pub open spec fn reply_error(out: Outcome, text: Seq<char>) -> bool {
    reply_is(out, RespV::Error(text))
}

/// Starting the network: exit power saving, then register the engine's
/// acknowledgment callback; the first failure answers with its error and
/// later steps do not run.
pub open spec fn start_post(pre: Actor, post: Actor, env: Env, out: Outcome) -> bool {
    if !env.power_ok {
        post == pre && reply_error(out, "failed to exit power saving mode"@)
    } else {
        &&& post.engine == pre.engine
        &&& post.peers == pre.peers
        &&& post.local == pre.local
        &&& post.power == PowerState::Active
        &&& match env.callback {
            Ok(_) => reply_is(out, RespV::NetStarted),
            Err(e) => reply_error(out, radio_error_text(e)),
        }
    }
}

/// Stopping the network: enter power saving, drain the peer table entry by
/// entry, abandon the in-flight messages, unregister the callback.  The
/// ledger keeps its last statuses.
pub open spec fn stop_post(pre: Actor, post: Actor, env: Env, out: Outcome) -> bool {
    if !env.power_ok {
        post == pre && reply_error(out, "failed to enter power saving mode"@)
    } else {
        &&& post.local == pre.local
        &&& post.power == PowerState::PowerSaving
        &&& post.peers.peers@.len() == 0
        &&& forall|a: Seq<u8>| !(#[trigger] post.peers.has_peer(a))
        &&& forall|a: Seq<u8>| !(#[trigger] post.engine.has_pending(a))
        &&& forall|a: Seq<u8>|
            #[trigger] post.engine.status_of(a) == pre.engine.status_of(a)
        &&& match env.callback {
            Ok(_) => reply_is(out, RespV::NetStopped),
            Err(e) => reply_error(out, radio_error_text(e)),
        }
    }
}

/// Receiving: surface a packet from a known peer, register an unknown
/// sender only on the handshake token, silently discard everything else.
pub open spec fn recv_post(pre: Actor, post: Actor, env: Env, out: Outcome) -> bool {
    match env.incoming {
        None => post == pre && reply_is(out, RespV::NetNoIncoming),
        Some(pkt) => match admission_of(pre.peers.has_peer(pkt.src@), pkt.data@) {
            Admission::Surface => post == pre && reply_is(
                out,
                RespV::NetIncoming(pkt.src@, pkt.data@),
            ),
            Admission::AdmitAndSurface => match env.peer_add {
                Ok(_) => {
                    &&& post.engine == pre.engine
                    &&& post.power == pre.power
                    &&& post.local == pre.local
                    &&& post.peers.peers@ == pre.peers.peers@.push(pkt.src)
                    &&& post.peers.has_peer(pkt.src@)
                    &&& forall|b: Seq<u8>|
                        b != pkt.src@ ==> #[trigger] post.peers.has_peer(b) == pre.peers.has_peer(
                            b,
                        )
                    &&& reply_is(out, RespV::NetIncoming(pkt.src@, pkt.data@))
                },
                Err(e) => post == pre && reply_error(out, radio_error_text(e)),
            },
            Admission::Discard => post == pre && reply_is(out, RespV::NetNoIncoming),
        },
    }
}

/// Sending: wait while a message for the peer is still in flight; once the
/// transport has accepted the send, record it fresh in the engine; a
/// rejected send answers with its error and records nothing.
pub open spec fn send_post(
    pre: Actor,
    post: Actor,
    env: Env,
    out: Outcome,
    addr: Seq<u8>,
    data: Seq<u8>,
) -> bool {
    if pre.engine.has_pending(addr) {
        post == pre && out is WouldBlock
    } else {
        match env.send {
            Ok(_) => {
                &&& post.peers == pre.peers
                &&& post.power == pre.power
                &&& post.local == pre.local
                &&& post.engine.slot(addr) == (Slot {
                    pending: Some(PendingView { payload: data, attempts: 0u8 }),
                    status: DeliveryStatus::Sending(0),
                })
                &&& forall|b: Seq<u8>|
                    b != addr ==> #[trigger] post.engine.slot(b) == pre.engine.slot(b)
                &&& reply_is(out, RespV::NetSent)
            },
            Err(e) => post == pre && reply_error(out, radio_error_text(e)),
        }
    }
}

/// Sampling the inputs: the touch point as the sensors reported it and the
/// button bitmask; a sensor fault answers with its message.
pub open spec fn input_post(pre: Actor, post: Actor, env: Env, out: Outcome) -> bool {
    match env.input {
        Ok(sample) => post == pre && reply_is(
            out,
            RespV::Input(sample.touch, mask_of(sample.buttons)),
        ),
        Err(e) => post == pre && reply_error(out, sensor_error_text(e)),
    }
}

impl Actor {
    pub open spec fn wf(self) -> bool {
        &&& self.engine.wf()
        &&& self.peers.wf()
    }

    /// A fresh dispatcher: nothing pending, no peers, radio asleep.
    pub fn new(local: Addr) -> (r: Actor)
        ensures
            r.wf(),
            r.power == PowerState::PowerSaving,
            r.local == local,
            r.peers.peers@.len() == 0,
            forall|a: Seq<u8>| !(#[trigger] r.peers.has_peer(a)),
            forall|a: Seq<u8>| (#[trigger] r.engine.slot(a)) == (Slot {
                pending: None::<PendingView>,
                status: DeliveryStatus::Empty,
            }),
    {
        Actor {
            engine: DeliveryEngine::new(),
            peers: PeerTable::new(),
            power: PowerState::PowerSaving,
            local,
        }
    }

    /// Route one request.  The caller has already made the outside calls
    /// the request needs and reports their outcomes in `env`; on
    /// `WouldBlock` it waits briefly and asks again, which realizes the
    /// blocking send of the wire protocol.  On `NetStop` the caller also
    /// unregisters the drained peers from the radio driver.
    pub fn handle(&mut self, req: Request, env: Env) -> (out: Outcome)
        requires
            old(self).wf(),
        ensures
            final(self).wf(),
            match req@ {
                ReqV::NetStart => start_post(*old(self), *final(self), env, out),
                ReqV::NetStop => stop_post(*old(self), *final(self), env, out),
                ReqV::NetLocalAddr => *final(self) == *old(self) && reply_is(
                    out,
                    RespV::NetLocalAddr(old(self).local@),
                ),
                ReqV::NetAdvertise => *final(self) == *old(self) && match env.send {
                    Ok(_) => reply_is(out, RespV::NetAdvertised),
                    Err(e) => reply_error(out, radio_error_text(e)),
                },
                ReqV::NetRecv => recv_post(*old(self), *final(self), env, out),
                ReqV::NetSend(addr, data) => send_post(
                    *old(self),
                    *final(self),
                    env,
                    out,
                    addr,
                    data,
                ),
                ReqV::NetSendStatus(addr) => *final(self) == *old(self) && reply_is(
                    out,
                    RespV::NetSendStatus(old(self).engine.status_of(addr)),
                ),
                ReqV::ReadInput => input_post(*old(self), *final(self), env, out),
                ReqV::WifiConnect(_, _) => *final(self) == *old(self) && if env.wifi_ok {
                    reply_is(out, RespV::WifiConnected)
                } else {
                    reply_error(out, "failed to connect to wifi"@)
                },
                ReqV::TcpConnect(_, _) => *final(self) == *old(self) && if env.tcp_ok {
                    reply_is(out, RespV::TcpConnected)
                } else {
                    reply_error(out, "failed to open tcp connection"@)
                },
                ReqV::TcpClose => *final(self) == *old(self) && reply_is(out, RespV::TcpClosed),
            },
    {
        match req {
            Request::NetStart => {
                if !env.power_ok {
                    return Outcome::Reply(
                        Response::Error(String::from_str("failed to exit power saving mode")),
                    );
                }
                self.power = PowerState::Active;
                match env.callback {
                    Ok(_) => Outcome::Reply(Response::NetStarted),
                    Err(e) => Outcome::Reply(Response::Error(describe_radio(&e))),
                }
            },
            Request::NetStop => {
                if !env.power_ok {
                    return Outcome::Reply(
                        Response::Error(String::from_str("failed to enter power saving mode")),
                    );
                }
                self.power = PowerState::PowerSaving;
                let _ = self.peers.drain();
                self.engine.stop();
                match env.callback {
                    Ok(_) => Outcome::Reply(Response::NetStopped),
                    Err(e) => Outcome::Reply(Response::Error(describe_radio(&e))),
                }
            },
            Request::NetLocalAddr => Outcome::Reply(Response::NetLocalAddr(self.local)),
            Request::NetAdvertise => match env.send {
                Ok(_) => Outcome::Reply(Response::NetAdvertised),
                Err(e) => Outcome::Reply(Response::Error(describe_radio(&e))),
            },
            Request::NetRecv => {
                match env.incoming {
                    None => Outcome::Reply(Response::NetNoIncoming),
                    Some(pkt) => {
                        let known = self.peers.contains(&pkt.src);
                        match classify(known, pkt.data.as_slice()) {
                            Admission::Surface => Outcome::Reply(
                                Response::NetIncoming(pkt.src, pkt.data),
                            ),
                            Admission::AdmitAndSurface => match env.peer_add {
                                Ok(_) => {
                                    self.peers.add(pkt.src);
                                    Outcome::Reply(Response::NetIncoming(pkt.src, pkt.data))
                                },
                                Err(e) => Outcome::Reply(Response::Error(describe_radio(&e))),
                            },
                            Admission::Discard => Outcome::Reply(Response::NetNoIncoming),
                        }
                    },
                }
            },
            Request::NetSend(addr, data) => {
                if self.engine.is_pending(&addr) {
                    return Outcome::WouldBlock;
                }
                match env.send {
                    Ok(_) => {
                        self.engine.send(addr, data);
                        Outcome::Reply(Response::NetSent)
                    },
                    Err(e) => Outcome::Reply(Response::Error(describe_radio(&e))),
                }
            },
            Request::NetSendStatus(addr) => {
                let st = self.engine.get_status(&addr);
                Outcome::Reply(Response::NetSendStatus(st))
            },
            Request::ReadInput => match env.input {
                Ok(sample) => {
                    let mask = buttons_mask(&sample.buttons);
                    Outcome::Reply(Response::Input(sample.touch, mask))
                },
                Err(e) => Outcome::Reply(Response::Error(describe_sensor(&e))),
            },
            Request::WifiConnect(_, _) => {
                if env.wifi_ok {
                    Outcome::Reply(Response::WifiConnected)
                } else {
                    Outcome::Reply(Response::Error(String::from_str("failed to connect to wifi")))
                }
            },
            Request::TcpConnect(_, _) => {
                if env.tcp_ok {
                    Outcome::Reply(Response::TcpConnected)
                } else {
                    Outcome::Reply(
                        Response::Error(String::from_str("failed to open tcp connection")),
                    )
                }
            },
            Request::TcpClose => Outcome::Reply(Response::TcpClosed),
        }
    }

    /// The acknowledgment callback's decision, as the interrupt glue calls
    /// it: a success confirms the pending message, a failure steps the
    /// retry state and may hand back a payload to re-send.
    pub fn send_callback(&mut self, addr: &Addr, success: bool) -> (act: RetryAction)
        requires
            old(self).wf(),
        ensures
            final(self).wf(),
            final(self).peers == old(self).peers,
            final(self).power == old(self).power,
            final(self).local == old(self).local,
            success ==> ({
                &&& final(self).engine.slot(addr@) == (Slot {
                    pending: None::<PendingView>,
                    status: DeliveryStatus::Delivered(0),
                })
                &&& act is Ignored
            }),
            !success ==> final(self).engine.slot(addr@) == crate::delivery::nack_next(
                old(self).engine.slot(addr@),
            ),
            !success ==> ({
                &&& old(self).engine.slot(addr@).pending is None ==> act is Ignored
                &&& old(self).engine.slot(addr@).pending matches Some(p) ==> ({
                    &&& p.attempts + 1 >= crate::MAX_RETRIES ==> act is GaveUp
                    &&& p.attempts + 1 < crate::MAX_RETRIES ==> (act matches RetryAction::Resend(d)
                        && d@ == p.payload)
                })
            }),
            forall|b: Seq<u8>|
                b != addr@ ==> #[trigger] final(self).engine.slot(b) == old(self).engine.slot(b),
    {
        if success {
            self.engine.confirm(addr);
            RetryAction::Ignored
        } else {
            self.engine.on_nack(addr)
        }
    }
}

} // verus!
