//! Peer table and admission control.
//!
//! The radio medium is broadcast and unauthenticated.  A packet from an
//! address that is not yet a peer registers that address only when its
//! payload is exactly the reserved handshake token; any other payload from
//! an unknown address is silently discarded.  Packets from known peers are
//! always surfaced.  The table itself mirrors, as plain values, the set of
//! addresses registered with the radio driver; the caller keeps the driver
//! in step with it.

use vstd::prelude::*;

use crate::Addr;
use crate::delivery::addr_eq;

verus! {

/// The reserved handshake payload, the bytes of `"HELLO"`.
pub open spec fn handshake() -> Seq<u8> {
    seq![72u8, 69u8, 76u8, 76u8, 79u8]
}

/// The handshake token as an owned buffer.
pub fn handshake_token() -> (r: Vec<u8>)
    ensures
        r@ == handshake(),
{
    let mut r: Vec<u8> = Vec::new();
    r.push(72);
    r.push(69);
    r.push(76);
    r.push(76);
    r.push(79);
    proof {
        assert(r@ =~= handshake());
    }
    r
}

/// Whether a payload is exactly the handshake token.
pub fn is_handshake(payload: &[u8]) -> (r: bool)
    ensures
        r == (payload@ == handshake()),
{
    if payload.len() != 5 {
        proof {
            assert(payload@.len() != handshake().len());
        }
        return false;
    }
    let ok = payload[0] == 72 && payload[1] == 69 && payload[2] == 76 && payload[3] == 76
        && payload[4] == 79;
    proof {
        if ok {
            assert(payload@ =~= handshake());
        } else {
            if payload@ == handshake() {
                assert(payload@[0] == 72);
                assert(payload@[1] == 69);
                assert(payload@[2] == 76);
                assert(payload@[3] == 76);
                assert(payload@[4] == 79);
            }
        }
    }
    ok
}

/// What the receive path does with an inbound packet.
#[derive(Clone, Copy, PartialEq, Eq, Structural, Debug)]
pub enum Admission {
    /// The sender is already a peer: hand the packet up.
    Surface,
    /// Unknown sender with the handshake payload: register it, then hand
    /// the packet up.
    AdmitAndSurface,
    /// Unknown sender, arbitrary payload: drop the packet.
    Discard,
}

/// The admission rule.
pub open spec fn admission_of(known: bool, payload: Seq<u8>) -> Admission {
    if known {
        Admission::Surface
    } else if payload == handshake() {
        Admission::AdmitAndSurface
    } else {
        Admission::Discard
    }
}

/// Decide what to do with a packet, given whether its sender is a peer.
pub fn classify(known: bool, payload: &[u8]) -> (r: Admission)
    ensures
        r == admission_of(known, payload@),
{
    if known {
        Admission::Surface
    } else if is_handshake(payload) {
        Admission::AdmitAndSurface
    } else {
        Admission::Discard
    }
}

/// The set of addresses registered for radio communication.
pub struct PeerTable {
    pub peers: Vec<Addr>,
}

impl PeerTable {
    pub open spec fn has_peer(self, a: Seq<u8>) -> bool {
        exists|i: int| 0 <= i < self.peers@.len() && self.peers@[i]@ == a
    }

    /// Well-formedness: no address is registered twice.
    pub open spec fn wf(self) -> bool {
        forall|i: int, j: int|
            0 <= i < j < self.peers@.len() ==> #[trigger] self.peers@[i]@
                != #[trigger] self.peers@[j]@
    }

    pub fn new() -> (r: PeerTable)
        ensures
            r.wf(),
            r.peers@.len() == 0,
            forall|a: Seq<u8>| !(#[trigger] r.has_peer(a)),
    {
        PeerTable { peers: Vec::new() }
    }

    /// Whether the address is registered.
    pub fn contains(&self, addr: &Addr) -> (r: bool)
        ensures
            r == self.has_peer(addr@),
    {
        let mut i: usize = 0;
        while i < self.peers.len()
            invariant
                i <= self.peers@.len(),
                forall|j: int| 0 <= j < i ==> #[trigger] self.peers@[j]@ != addr@,
            decreases self.peers@.len() - i,
        {
            if addr_eq(&self.peers[i], addr) {
                return true;
            }
            i = i + 1;
        }
        false
    }

    /// Register a fresh address.
    pub fn add(&mut self, addr: Addr)
        requires
            old(self).wf(),
            !old(self).has_peer(addr@),
        ensures
            final(self).wf(),
            final(self).has_peer(addr@),
            final(self).peers@ == old(self).peers@.push(addr),
            forall|b: Seq<u8>|
                b != addr@ ==> #[trigger] final(self).has_peer(b) == old(self).has_peer(b),
    {
        let ghost p0 = self.peers@;
        self.peers.push(addr);
        proof {
            assert forall|i: int, j: int| 0 <= i < j < self.peers@.len() implies
                #[trigger] self.peers@[i]@ != #[trigger] self.peers@[j]@ by {
                if j == p0.len() {
                    assert(self.peers@[i] == p0[i]);
                    assert(self.peers@[j] == addr);
                }
            }
            assert(self.peers@[p0.len() as int]@ == addr@);
            assert forall|b: Seq<u8>| b != addr@ implies #[trigger] self.has_peer(b) == old(
                self,
            ).has_peer(b) by {
                if self.has_peer(b) {
                    let i = choose|i: int|
                        0 <= i < self.peers@.len() && self.peers@[i]@ == b;
                    assert(i != p0.len());
                    assert(self.peers@[i] == p0[i]);
                    assert(old(self).has_peer(b));
                }
                if old(self).has_peer(b) {
                    let i = choose|i: int| 0 <= i < p0.len() && p0[i]@ == b;
                    assert(self.peers@[i] == p0[i]);
                    assert(self.has_peer(b));
                }
            }
        }
    }

    /// Remove every peer, one entry at a time, and hand the removed
    /// addresses back in their registration order so the caller can
    /// unregister them from the radio driver too.
    pub fn drain(&mut self) -> (removed: Vec<Addr>)
        requires
            old(self).wf(),
        ensures
            final(self).wf(),
            final(self).peers@.len() == 0,
            forall|a: Seq<u8>| !(#[trigger] final(self).has_peer(a)),
            removed@ == old(self).peers@,
    {
        let mut removed: Vec<Addr> = Vec::new();
        while self.peers.len() > 0
            invariant
                removed@ + self.peers@ == old(self).peers@,
            decreases self.peers@.len(),
        {
            let a = self.peers.remove(0);
            removed.push(a);
            proof {
                assert(removed@ + self.peers@ =~= old(self).peers@);
            }
        }
        proof {
            assert(removed@ =~= old(self).peers@);
        }
        removed
    }
}

} // verus!
