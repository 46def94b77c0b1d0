//! Reliable-delivery engine.
//!
//! The engine owns the pending-message table and the per-peer delivery
//! status ledger.  A send records a pending message once the transport has
//! accepted it; the radio's acknowledgment callback then resolves that
//! message through [`DeliveryEngine::confirm`] or [`DeliveryEngine::on_nack`].
//! The transport calls themselves, the busy-wait while an address is still
//! pending and the mutual exclusion between the request loop and the
//! interrupt context live with the caller; every method here is a plain
//! state transition and is verified for every outcome of those calls.

use vstd::prelude::*;

use crate::Addr;
use crate::MAX_RETRIES;

verus! {

/// Latest delivery outcome recorded for one peer.
#[derive(Clone, Copy, PartialEq, Eq, Structural, Debug)]
pub enum DeliveryStatus {
    /// No message was ever sent to the peer.
    Empty,
    /// A message is in flight; the value counts the attempts so far.
    Sending(u8),
    /// The latest message was acknowledged.
    Delivered(u8),
    /// The latest message exceeded the retry ceiling and was dropped.
    Failed,
}

/// A message accepted by the transport and not yet confirmed.
pub struct PendingMessage {
    pub addr: Addr,
    pub payload: Vec<u8>,
    pub attempts: u8,
}

/// One entry of the status ledger.
pub struct StatusEntry {
    pub addr: Addr,
    pub status: DeliveryStatus,
}

/// Ghost image of a pending message: its payload and attempt count.
pub ghost struct PendingView {
    pub payload: Seq<u8>,
    pub attempts: u8,
}

/// Ghost image of everything the engine records for one address.
pub ghost struct Slot {
    pub pending: Option<PendingView>,
    pub status: DeliveryStatus,
}

/// What the caller must do after a negative acknowledgment.
#[derive(Debug)]
pub enum RetryAction {
    /// No message was pending for the address; nothing to do.
    Ignored,
    /// Re-issue the raw transport send with this payload.
    Resend(Vec<u8>),
    /// The retry ceiling was reached; the message was dropped.
    GaveUp,
}

pub open spec fn pseq_has(s: Seq<PendingMessage>, a: Seq<u8>) -> bool {
    exists|i: int| 0 <= i < s.len() && s[i].addr@ == a
}

pub open spec fn pseq_at(s: Seq<PendingMessage>, a: Seq<u8>) -> int {
    choose|i: int| 0 <= i < s.len() && s[i].addr@ == a
}

pub open spec fn pseq_view(s: Seq<PendingMessage>, a: Seq<u8>) -> Option<PendingView> {
    if pseq_has(s, a) {
        let m = s[pseq_at(s, a)];
        Some(PendingView { payload: m.payload@, attempts: m.attempts })
    } else {
        None
    }
}

pub open spec fn pseq_unique(s: Seq<PendingMessage>) -> bool {
    forall|i: int, j: int|
        0 <= i < j < s.len() ==> #[trigger] s[i].addr@ != #[trigger] s[j].addr@
}

pub open spec fn sseq_has(s: Seq<StatusEntry>, a: Seq<u8>) -> bool {
    exists|i: int| 0 <= i < s.len() && s[i].addr@ == a
}

pub open spec fn sseq_at(s: Seq<StatusEntry>, a: Seq<u8>) -> int {
    choose|i: int| 0 <= i < s.len() && s[i].addr@ == a
}

pub open spec fn sseq_status(s: Seq<StatusEntry>, a: Seq<u8>) -> DeliveryStatus {
    if sseq_has(s, a) {
        s[sseq_at(s, a)].status
    } else {
        DeliveryStatus::Empty
    }
}

pub open spec fn sseq_unique(s: Seq<StatusEntry>) -> bool {
    forall|i: int, j: int|
        0 <= i < j < s.len() ==> #[trigger] s[i].addr@ != #[trigger] s[j].addr@
}

/// Compare two addresses byte for byte.
pub fn addr_eq(a: &Addr, b: &Addr) -> (r: bool)
    ensures
        r == (a@ == b@),
{
    let mut i: usize = 0;
    while i < 6
        invariant
            0 <= i <= 6,
            forall|j: int| 0 <= j < i ==> a@[j] == b@[j],
        decreases 6 - i,
    {
        if a[i] != b[i] {
            return false;
        }
        i = i + 1;
    }
    proof {
        assert(a@ =~= b@);
    }
    true
}

/// Copy a byte slice into an owned buffer.
pub fn copy_bytes(v: &[u8]) -> (r: Vec<u8>)
    ensures
        r@ == v@,
{
    let mut r: Vec<u8> = Vec::new();
    let mut i: usize = 0;
    while i < v.len()
        invariant
            i <= v@.len(),
            r@ == v@.take(i as int),
        decreases v@.len() - i,
    {
        r.push(v[i]);
        assert(r@ =~= v@.take(i + 1));
        i = i + 1;
    }
    assert(r@ =~= v@);
    r
}

/// In a table without duplicate addresses, the entry found at any index is
/// the one the table's lookup functions describe.
proof fn lemma_pseq_at(s: Seq<PendingMessage>, i: int)
    requires
        pseq_unique(s),
        0 <= i < s.len(),
    ensures
        pseq_has(s, s[i].addr@),
        pseq_at(s, s[i].addr@) == i,
        pseq_view(s, s[i].addr@) == Some(PendingView {
            payload: s[i].payload@,
            attempts: s[i].attempts,
        }),
{
    assert(pseq_has(s, s[i].addr@));
    let j = pseq_at(s, s[i].addr@);
    if i < j {
        assert(s[i].addr@ != s[j].addr@);
    } else if j < i {
        assert(s[j].addr@ != s[i].addr@);
    }
}

proof fn lemma_sseq_at(s: Seq<StatusEntry>, i: int)
    requires
        sseq_unique(s),
        0 <= i < s.len(),
    ensures
        sseq_has(s, s[i].addr@),
        sseq_at(s, s[i].addr@) == i,
        sseq_status(s, s[i].addr@) == s[i].status,
{
    assert(sseq_has(s, s[i].addr@));
    let j = sseq_at(s, s[i].addr@);
    if i < j {
        assert(s[i].addr@ != s[j].addr@);
    } else if j < i {
        assert(s[j].addr@ != s[i].addr@);
    }
}

/// Removing the entry for one address leaves every other address's view
/// untouched and the table without duplicates.
proof fn lemma_pseq_remove(s: Seq<PendingMessage>, i: int)
    requires
        pseq_unique(s),
        0 <= i < s.len(),
    ensures
        pseq_unique(s.remove(i)),
        !pseq_has(s.remove(i), s[i].addr@),
        forall|b: Seq<u8>|
            #![trigger pseq_has(s.remove(i), b)]
            #![trigger pseq_view(s.remove(i), b)]
            b != s[i].addr@ ==> pseq_has(s.remove(i), b) == pseq_has(s, b)
                && pseq_view(s.remove(i), b) == pseq_view(s, b),
{
    let t = s.remove(i);
    s.remove_ensures(i);
    assert forall|p: int, q: int| 0 <= p < q < t.len() implies #[trigger] t[p].addr@
        != #[trigger] t[q].addr@ by {
        let p0 = if p < i { p } else { p + 1 };
        let q0 = if q < i { q } else { q + 1 };
        assert(t[p] == s[p0]);
        assert(t[q] == s[q0]);
    }
    assert forall|j: int| 0 <= j < t.len() implies #[trigger] t[j].addr@ != s[i].addr@ by {
        let j0 = if j < i { j } else { j + 1 };
        assert(t[j] == s[j0]);
        if j0 < i {
            assert(s[j0].addr@ != s[i].addr@);
        } else {
            assert(s[i].addr@ != s[j0].addr@);
        }
    }
    assert forall|b: Seq<u8>| b != s[i].addr@ implies #[trigger] pseq_has(t, b) == pseq_has(s, b)
        && pseq_view(t, b) == pseq_view(s, b) by {
        if pseq_has(t, b) {
            let j = pseq_at(t, b);
            let j0 = if j < i { j } else { j + 1 };
            assert(t[j] == s[j0]);
            lemma_pseq_at(t, j);
            lemma_pseq_at(s, j0);
        } else if pseq_has(s, b) {
            let j0 = pseq_at(s, b);
            assert(0 <= j0 < s.len() && s[j0].addr@ == b);
            assert(j0 != i);
            let j = if j0 < i { j0 } else { j0 - 1 };
            assert(t[j] == s[j0]);
            assert(pseq_has(t, b));
        }
    }
}

proof fn lemma_sseq_remove(s: Seq<StatusEntry>, i: int)
    requires
        sseq_unique(s),
        0 <= i < s.len(),
    ensures
        sseq_unique(s.remove(i)),
        !sseq_has(s.remove(i), s[i].addr@),
        forall|b: Seq<u8>|
            #![trigger sseq_has(s.remove(i), b)]
            #![trigger sseq_status(s.remove(i), b)]
            b != s[i].addr@ ==> sseq_has(s.remove(i), b) == sseq_has(s, b)
                && sseq_status(s.remove(i), b) == sseq_status(s, b),
{
    let t = s.remove(i);
    s.remove_ensures(i);
    assert forall|p: int, q: int| 0 <= p < q < t.len() implies #[trigger] t[p].addr@
        != #[trigger] t[q].addr@ by {
        let p0 = if p < i { p } else { p + 1 };
        let q0 = if q < i { q } else { q + 1 };
        assert(t[p] == s[p0]);
        assert(t[q] == s[q0]);
    }
    assert forall|j: int| 0 <= j < t.len() implies #[trigger] t[j].addr@ != s[i].addr@ by {
        let j0 = if j < i { j } else { j + 1 };
        assert(t[j] == s[j0]);
        if j0 < i {
            assert(s[j0].addr@ != s[i].addr@);
        } else {
            assert(s[i].addr@ != s[j0].addr@);
        }
    }
    assert forall|b: Seq<u8>| b != s[i].addr@ implies #[trigger] sseq_has(t, b) == sseq_has(s, b)
        && sseq_status(t, b) == sseq_status(s, b) by {
        if sseq_has(t, b) {
            let j = sseq_at(t, b);
            let j0 = if j < i { j } else { j + 1 };
            assert(t[j] == s[j0]);
            lemma_sseq_at(t, j);
            lemma_sseq_at(s, j0);
        } else if sseq_has(s, b) {
            let j0 = sseq_at(s, b);
            assert(0 <= j0 < s.len() && s[j0].addr@ == b);
            assert(j0 != i);
            let j = if j0 < i { j0 } else { j0 - 1 };
            assert(t[j] == s[j0]);
            assert(sseq_has(t, b));
        }
    }
}

/// Appending an entry for a fresh address records exactly that entry and
/// leaves every other address's view untouched.
proof fn lemma_pseq_push(s: Seq<PendingMessage>, m: PendingMessage)
    requires
        pseq_unique(s),
        !pseq_has(s, m.addr@),
    ensures
        pseq_unique(s.push(m)),
        pseq_view(s.push(m), m.addr@) == Some(PendingView {
            payload: m.payload@,
            attempts: m.attempts,
        }),
        forall|b: Seq<u8>|
            #![trigger pseq_has(s.push(m), b)]
            #![trigger pseq_view(s.push(m), b)]
            b != m.addr@ ==> pseq_has(s.push(m), b) == pseq_has(s, b)
                && pseq_view(s.push(m), b) == pseq_view(s, b),
{
    let t = s.push(m);
    assert forall|p: int, q: int| 0 <= p < q < t.len() implies #[trigger] t[p].addr@
        != #[trigger] t[q].addr@ by {
        if q == s.len() {
            assert(t[p] == s[p]);
            assert(t[q] == m);
            lemma_pseq_at(s, p);
        } else {
            assert(t[p] == s[p]);
            assert(t[q] == s[q]);
        }
    }
    lemma_pseq_at(t, s.len() as int);
    assert forall|b: Seq<u8>| b != m.addr@ implies #[trigger] pseq_has(t, b) == pseq_has(s, b)
        && pseq_view(t, b) == pseq_view(s, b) by {
        if pseq_has(t, b) {
            let j = pseq_at(t, b);
            assert(j != s.len());
            assert(t[j] == s[j]);
            lemma_pseq_at(t, j);
            lemma_pseq_at(s, j);
        } else if pseq_has(s, b) {
            let j = pseq_at(s, b);
            assert(t[j] == s[j]);
            assert(pseq_has(t, b));
        }
    }
}

proof fn lemma_sseq_push(s: Seq<StatusEntry>, e: StatusEntry)
    requires
        sseq_unique(s),
        !sseq_has(s, e.addr@),
    ensures
        sseq_unique(s.push(e)),
        sseq_status(s.push(e), e.addr@) == e.status,
        sseq_has(s.push(e), e.addr@),
        forall|b: Seq<u8>|
            #![trigger sseq_has(s.push(e), b)]
            #![trigger sseq_status(s.push(e), b)]
            b != e.addr@ ==> sseq_has(s.push(e), b) == sseq_has(s, b)
                && sseq_status(s.push(e), b) == sseq_status(s, b),
{
    let t = s.push(e);
    assert forall|p: int, q: int| 0 <= p < q < t.len() implies #[trigger] t[p].addr@
        != #[trigger] t[q].addr@ by {
        if q == s.len() {
            assert(t[p] == s[p]);
            assert(t[q] == e);
            lemma_sseq_at(s, p);
        } else {
            assert(t[p] == s[p]);
            assert(t[q] == s[q]);
        }
    }
    lemma_sseq_at(t, s.len() as int);
    assert forall|b: Seq<u8>| b != e.addr@ implies #[trigger] sseq_has(t, b) == sseq_has(s, b)
        && sseq_status(t, b) == sseq_status(s, b) by {
        if sseq_has(t, b) {
            let j = sseq_at(t, b);
            assert(j != s.len());
            assert(t[j] == s[j]);
            lemma_sseq_at(t, j);
            lemma_sseq_at(s, j);
        } else if sseq_has(s, b) {
            let j = sseq_at(s, b);
            assert(t[j] == s[j]);
            assert(sseq_has(t, b));
        }
    }
}

/// The delivery engine: pending-message table and status ledger.
pub struct DeliveryEngine {
    pub pending: Vec<PendingMessage>,
    pub statuses: Vec<StatusEntry>,
}

impl DeliveryEngine {
    pub open spec fn has_pending(self, a: Seq<u8>) -> bool {
        pseq_has(self.pending@, a)
    }

    pub open spec fn pending_view(self, a: Seq<u8>) -> Option<PendingView> {
        pseq_view(self.pending@, a)
    }

    pub open spec fn status_of(self, a: Seq<u8>) -> DeliveryStatus {
        sseq_status(self.statuses@, a)
    }

    /// Everything recorded for one address.
    pub open spec fn slot(self, a: Seq<u8>) -> Slot {
        Slot { pending: self.pending_view(a), status: self.status_of(a) }
    }

    /// Well-formedness: one pending message and one ledger entry per
    /// address, attempt counters below the ceiling, and a pending message
    /// always has a matching `Sending` entry in the ledger.
    pub open spec fn wf(self) -> bool {
        &&& pseq_unique(self.pending@)
        &&& sseq_unique(self.statuses@)
        &&& forall|i: int|
            0 <= i < self.pending@.len() ==> #[trigger] self.pending@[i].attempts < MAX_RETRIES
        &&& forall|i: int|
            0 <= i < self.pending@.len() ==> self.status_of(#[trigger] self.pending@[i].addr@)
                == DeliveryStatus::Sending(self.pending@[i].attempts)
    }

    pub fn new() -> (r: DeliveryEngine)
        ensures
            r.wf(),
            forall|a: Seq<u8>| (#[trigger] r.slot(a)) == (Slot {
                pending: None::<PendingView>,
                status: DeliveryStatus::Empty,
            }),
    {
        DeliveryEngine { pending: Vec::new(), statuses: Vec::new() }
    }

    fn find_pending(&self, addr: &Addr) -> (r: Option<usize>)
        ensures
            r matches Some(i) ==> i < self.pending@.len() && self.pending@[i as int].addr@
                == addr@,
            r is None ==> !self.has_pending(addr@),
    {
        let mut i: usize = 0;
        while i < self.pending.len()
            invariant
                i <= self.pending@.len(),
                forall|j: int| 0 <= j < i ==> #[trigger] self.pending@[j].addr@ != addr@,
            decreases self.pending@.len() - i,
        {
            if addr_eq(&self.pending[i].addr, addr) {
                return Some(i);
            }
            i = i + 1;
        }
        None
    }

    fn find_status(&self, addr: &Addr) -> (r: Option<usize>)
        ensures
            r matches Some(i) ==> i < self.statuses@.len() && self.statuses@[i as int].addr@
                == addr@,
            r is None ==> !sseq_has(self.statuses@, addr@),
    {
        let mut i: usize = 0;
        while i < self.statuses.len()
            invariant
                i <= self.statuses@.len(),
                forall|j: int| 0 <= j < i ==> #[trigger] self.statuses@[j].addr@ != addr@,
            decreases self.statuses@.len() - i,
        {
            if addr_eq(&self.statuses[i].addr, addr) {
                return Some(i);
            }
            i = i + 1;
        }
        None
    }

    /// Whether a message for the peer is in flight.  Never mutates.
    pub fn is_pending(&self, addr: &Addr) -> (r: bool)
        ensures
            r == self.has_pending(addr@),
    {
        self.find_pending(addr).is_some()
    }

    /// The most recent delivery status recorded for the peer, `Empty` if
    /// none was ever recorded.  Never blocks, never mutates.
    pub fn get_status(&self, addr: &Addr) -> (r: DeliveryStatus)
        requires
            self.wf(),
        ensures
            r == self.status_of(addr@),
    {
        match self.find_status(addr) {
            Some(i) => {
                proof {
                    lemma_sseq_at(self.statuses@, i as int);
                }
                self.statuses[i].status
            },
            None => DeliveryStatus::Empty,
        }
    }

    /// Evict any older ledger entry for the address and record a new one.
    fn set_status(&mut self, addr: &Addr, st: DeliveryStatus)
        requires
            sseq_unique(old(self).statuses@),
        ensures
            sseq_unique(final(self).statuses@),
            final(self).pending@ == old(self).pending@,
            sseq_status(final(self).statuses@, addr@) == st,
            sseq_has(final(self).statuses@, addr@),
            forall|b: Seq<u8>|
                #![trigger sseq_has(final(self).statuses@, b)]
                #![trigger sseq_status(final(self).statuses@, b)]
                b != addr@ ==> sseq_status(final(self).statuses@, b) == sseq_status(
                    old(self).statuses@,
                    b,
                ) && sseq_has(final(self).statuses@, b) == sseq_has(old(self).statuses@, b),
    {
        let ghost s0 = self.statuses@;
        match self.find_status(addr) {
            Some(i) => {
                proof {
                    lemma_sseq_at(s0, i as int);
                    lemma_sseq_remove(s0, i as int);
                }
                self.statuses.remove(i);
            },
            None => {},
        }
        let ghost s1 = self.statuses@;
        proof {
            lemma_sseq_push(s1, StatusEntry { addr: *addr, status: st });
        }
        self.statuses.push(StatusEntry { addr: *addr, status: st });
    }

    /// Record a message the transport has just accepted: a fresh pending
    /// entry with no attempts yet, and a `Sending(0)` ledger entry.
    ///
    /// The caller holds the at-most-one-in-flight rule: it must first wait
    /// until nothing is pending for the address.  On transport rejection
    /// nothing is recorded and this function is not called.
    pub fn send(&mut self, addr: Addr, payload: Vec<u8>)
        requires
            old(self).wf(),
            !old(self).has_pending(addr@),
        ensures
            final(self).wf(),
            final(self).slot(addr@) == fresh_slot(payload@),
            forall|b: Seq<u8>| b != addr@ ==> #[trigger] final(self).slot(b) == old(self).slot(b),
    {
        self.set_status(&addr, DeliveryStatus::Sending(0));
        let ghost mid = *self;
        let msg = PendingMessage { addr, payload, attempts: 0 };
        proof {
            lemma_pseq_push(mid.pending@, msg);
        }
        self.pending.push(msg);
        proof {
            assert(self.statuses@ == mid.statuses@);
            assert(mid.pending@ == old(self).pending@);
            assert forall|i: int| 0 <= i < self.pending@.len() implies self.status_of(
                #[trigger] self.pending@[i].addr@,
            ) == DeliveryStatus::Sending(self.pending@[i].attempts) by {
                if i < mid.pending@.len() {
                    assert(self.pending@[i] == old(self).pending@[i]);
                    lemma_pseq_at(old(self).pending@, i);
                    let b = old(self).pending@[i].addr@;
                    assert(b != addr@);
                    assert(old(self).status_of(b) == DeliveryStatus::Sending(
                        old(self).pending@[i].attempts,
                    ));
                    assert(sseq_status(mid.statuses@, b) == sseq_status(old(self).statuses@, b));
                } else {
                    assert(self.pending@[i].addr@ == addr@);
                    assert(sseq_status(mid.statuses@, addr@) == DeliveryStatus::Sending(0));
                }
            }
            assert forall|b: Seq<u8>| b != addr@ implies #[trigger] self.slot(b) == old(
                self,
            ).slot(b) by {
                assert(pseq_view(mid.pending@.push(msg), b) == pseq_view(old(self).pending@, b));
                assert(sseq_status(mid.statuses@, b) == sseq_status(old(self).statuses@, b));
            }
        }
    }

    /// The acknowledgment arrived: drop the pending message for the peer
    /// and record `Delivered`.
    pub fn confirm(&mut self, addr: &Addr)
        requires
            old(self).wf(),
        ensures
            final(self).wf(),
            final(self).slot(addr@) == (Slot {
                pending: None::<PendingView>,
                status: DeliveryStatus::Delivered(0),
            }),
            forall|b: Seq<u8>| b != addr@ ==> #[trigger] final(self).slot(b) == old(self).slot(b),
    {
        self.set_status(addr, DeliveryStatus::Delivered(0));
        let ghost mid = *self;
        match self.find_pending(addr) {
            Some(i) => {
                proof {
                    lemma_pseq_at(mid.pending@, i as int);
                    lemma_pseq_remove(mid.pending@, i as int);
                }
                self.pending.remove(i);
            },
            None => {},
        }
        proof {
            assert(self.statuses@ == mid.statuses@);
            assert(mid.pending@ == old(self).pending@);
            assert(!pseq_has(self.pending@, addr@));
            assert forall|i: int| 0 <= i < self.pending@.len() implies self.status_of(
                #[trigger] self.pending@[i].addr@,
            ) == DeliveryStatus::Sending(self.pending@[i].attempts) by {
                lemma_pseq_at(self.pending@, i);
                let b = self.pending@[i].addr@;
                assert(b != addr@);
                assert(pseq_view(self.pending@, b) == pseq_view(old(self).pending@, b));
                assert(pseq_has(old(self).pending@, b));
                let j = pseq_at(old(self).pending@, b);
                lemma_pseq_at(old(self).pending@, j);
                assert(old(self).status_of(old(self).pending@[j].addr@) == DeliveryStatus::Sending(
                    old(self).pending@[j].attempts,
                ));
                assert(sseq_status(mid.statuses@, b) == sseq_status(old(self).statuses@, b));
            }
            assert forall|b: Seq<u8>| b != addr@ implies #[trigger] self.slot(b) == old(
                self,
            ).slot(b) by {
                assert(pseq_view(self.pending@, b) == pseq_view(old(self).pending@, b));
                assert(sseq_status(mid.statuses@, b) == sseq_status(old(self).statuses@, b));
            }
        }
    }

    /// A negative acknowledgment arrived: step the peer's slot as
    /// [`nack_next`] describes and tell the caller what to do about it.
    pub fn on_nack(&mut self, addr: &Addr) -> (act: RetryAction)
        requires
            old(self).wf(),
        ensures
            final(self).wf(),
            final(self).slot(addr@) == nack_next(old(self).slot(addr@)),
            forall|b: Seq<u8>| b != addr@ ==> #[trigger] final(self).slot(b) == old(self).slot(b),
            old(self).slot(addr@).pending is None ==> act is Ignored,
            old(self).slot(addr@).pending matches Some(p) ==> ({
                &&& p.attempts + 1 >= MAX_RETRIES ==> act is GaveUp
                &&& p.attempts + 1 < MAX_RETRIES ==> (act matches RetryAction::Resend(d) && d@
                    == p.payload)
            }),
    {
        let ghost e0 = *self;
        let idx = match self.find_pending(addr) {
            None => {
                return RetryAction::Ignored;
            },
            Some(i) => i,
        };
        proof {
            lemma_pseq_at(e0.pending@, idx as int);
            lemma_pseq_remove(e0.pending@, idx as int);
        }
        let mut msg = self.pending.remove(idx);
        let ghost e1 = *self;
        if msg.attempts >= MAX_RETRIES - 1 {
            self.set_status(addr, DeliveryStatus::Failed);
            let ghost e2 = *self;
            proof {
                assert(self.pending@ == e1.pending@);
                assert(!pseq_has(self.pending@, addr@));
                assert forall|i: int| 0 <= i < self.pending@.len() implies self.status_of(
                    #[trigger] self.pending@[i].addr@,
                ) == DeliveryStatus::Sending(self.pending@[i].attempts) by {
                    lemma_pseq_at(self.pending@, i);
                    let b = self.pending@[i].addr@;
                    assert(b != addr@);
                    assert(pseq_view(e1.pending@, b) == pseq_view(e0.pending@, b));
                    assert(pseq_has(e0.pending@, b));
                    let j = pseq_at(e0.pending@, b);
                    lemma_pseq_at(e0.pending@, j);
                    assert(e0.status_of(e0.pending@[j].addr@) == DeliveryStatus::Sending(
                        e0.pending@[j].attempts,
                    ));
                    assert(sseq_status(e2.statuses@, b) == sseq_status(e1.statuses@, b));
                }
                assert forall|b: Seq<u8>| b != addr@ implies #[trigger] self.slot(b) == old(
                    self,
                ).slot(b) by {
                    assert(pseq_view(e1.pending@, b) == pseq_view(e0.pending@, b));
                    assert(sseq_status(e2.statuses@, b) == sseq_status(e1.statuses@, b));
                }
            }
            RetryAction::GaveUp
        } else {
            msg.attempts = msg.attempts + 1;
            self.set_status(addr, DeliveryStatus::Sending(msg.attempts));
            let ghost e2 = *self;
            let data = copy_bytes(msg.payload.as_slice());
            proof {
                assert(e2.pending@ == e1.pending@);
                lemma_pseq_push(e2.pending@, msg);
            }
            self.pending.push(msg);
            proof {
                assert(self.statuses@ == e2.statuses@);
                assert(self.pending@ == e2.pending@.push(msg));
                assert forall|i: int| 0 <= i < self.pending@.len() implies self.status_of(
                    #[trigger] self.pending@[i].addr@,
                ) == DeliveryStatus::Sending(self.pending@[i].attempts) by {
                    if i < e2.pending@.len() {
                        assert(self.pending@[i] == e1.pending@[i]);
                        lemma_pseq_at(e1.pending@, i);
                        let b = e1.pending@[i].addr@;
                        assert(b != addr@);
                        assert(pseq_view(e1.pending@, b) == pseq_view(e0.pending@, b));
                        assert(pseq_has(e0.pending@, b));
                        let j = pseq_at(e0.pending@, b);
                        lemma_pseq_at(e0.pending@, j);
                        assert(e0.status_of(e0.pending@[j].addr@) == DeliveryStatus::Sending(
                            e0.pending@[j].attempts,
                        ));
                        assert(sseq_status(e2.statuses@, b) == sseq_status(e1.statuses@, b));
                    } else {
                        assert(self.pending@[i].addr@ == addr@);
                        assert(sseq_status(e2.statuses@, addr@) == DeliveryStatus::Sending(
                            msg.attempts,
                        ));
                    }
                }
                assert forall|b: Seq<u8>| b != addr@ implies #[trigger] self.slot(b) == old(
                    self,
                ).slot(b) by {
                    assert(pseq_view(e2.pending@.push(msg), b) == pseq_view(e2.pending@, b));
                    assert(pseq_view(e1.pending@, b) == pseq_view(e0.pending@, b));
                    assert(sseq_status(e2.statuses@, b) == sseq_status(e1.statuses@, b));
                }
            }
            RetryAction::Resend(data)
        }
    }

    /// Abandon every in-flight message without reporting its fate; the
    /// status ledger keeps what it had.
    pub fn stop(&mut self)
        requires
            old(self).wf(),
        ensures
            final(self).wf(),
            forall|a: Seq<u8>| !(#[trigger] final(self).has_pending(a)),
            forall|a: Seq<u8>| #[trigger] final(self).status_of(a) == old(self).status_of(a),
    {
        self.pending.clear();
    }
}

/// The slot of a message the transport has just accepted.
pub open spec fn fresh_slot(payload: Seq<u8>) -> Slot {
    Slot {
        pending: Some(PendingView { payload, attempts: 0u8 }),
        status: DeliveryStatus::Sending(0),
    }
}

/// What one negative acknowledgment does to one peer's slot: nothing when
/// nothing is pending; beyond the retry ceiling the message is dropped and
/// `Failed` recorded; otherwise the attempt counter and the ledger move up
/// together and the message stays pending.
pub open spec fn nack_next(s: Slot) -> Slot {
    match s.pending {
        None => s,
        Some(p) => {
            if p.attempts + 1 >= MAX_RETRIES {
                Slot { pending: None, status: DeliveryStatus::Failed }
            } else {
                Slot {
                    pending: Some(
                        PendingView { payload: p.payload, attempts: (p.attempts + 1) as u8 },
                    ),
                    status: DeliveryStatus::Sending((p.attempts + 1) as u8),
                }
            }
        },
    }
}

/// A peer's slot after `n` consecutive negative acknowledgments.
pub open spec fn iter_nack(s: Slot, n: nat) -> Slot
    decreases n,
{
    if n == 0 {
        s
    } else {
        nack_next(iter_nack(s, (n - 1) as nat))
    }
}

/// At most one message is in flight per peer: in a well-formed engine two
/// pending entries with the same address are the same entry.
pub proof fn lemma_at_most_one_pending(e: DeliveryEngine, i: int, j: int)
    requires
        e.wf(),
        0 <= i < e.pending@.len(),
        0 <= j < e.pending@.len(),
        e.pending@[i].addr@ == e.pending@[j].addr@,
    ensures
        i == j,
{
    if i < j {
        assert(e.pending@[i].addr@ != e.pending@[j].addr@);
    } else if j < i {
        assert(e.pending@[j].addr@ != e.pending@[i].addr@);
    }
}

/// The ledger keeps a single entry per address: in a well-formed engine two
/// status entries with the same address are the same entry.
pub proof fn lemma_single_status_entry(e: DeliveryEngine, i: int, j: int)
    requires
        e.wf(),
        0 <= i < e.statuses@.len(),
        0 <= j < e.statuses@.len(),
        e.statuses@[i].addr@ == e.statuses@[j].addr@,
    ensures
        i == j,
{
    if i < j {
        assert(e.statuses@[i].addr@ != e.statuses@[j].addr@);
    } else if j < i {
        assert(e.statuses@[j].addr@ != e.statuses@[i].addr@);
    }
}

/// The ledger is latest-per-address: whenever a well-formed engine records
/// anything for an address, it holds exactly one entry for it — the one
/// whose status `status_of` reads; recording a new status first evicts the
/// old entry, never stacks a second one.
pub proof fn lemma_ledger_latest_per_address(e: DeliveryEngine, a: Seq<u8>)
    requires
        e.wf(),
        sseq_has(e.statuses@, a),
    ensures
        exists|i: int|
            0 <= i < e.statuses@.len() && #[trigger] e.statuses@[i].addr@ == a
                && e.statuses@[i].status == e.status_of(a),
        forall|i: int, j: int|
            #![trigger e.statuses@[i].addr@, e.statuses@[j].addr@]
            (0 <= i < e.statuses@.len() && 0 <= j < e.statuses@.len() && e.statuses@[i].addr@ == a
                && e.statuses@[j].addr@ == a) ==> i == j,
{
    let w = sseq_at(e.statuses@, a);
    lemma_sseq_at(e.statuses@, w);
    assert(e.statuses@[w].addr@ == a && e.statuses@[w].status == e.status_of(a));
    assert forall|i: int, j: int|
        #![trigger e.statuses@[i].addr@, e.statuses@[j].addr@]
        (0 <= i < e.statuses@.len() && 0 <= j < e.statuses@.len() && e.statuses@[i].addr@ == a
            && e.statuses@[j].addr@ == a) implies i == j by {
        lemma_single_status_entry(e, i, j);
    }
}

/// Attempt counters never regress and the ledger moves with them: each of
/// the first `MAX_RETRIES - 1` negative acknowledgments after a fresh send
/// leaves the message pending with one more recorded attempt and the ledger
/// at `Sending` of that count.
pub proof fn lemma_retry_progression(payload: Seq<u8>, n: nat)
    requires
        n < MAX_RETRIES,
    ensures
        iter_nack(fresh_slot(payload), n) == (Slot {
            pending: Some(PendingView { payload, attempts: n as u8 }),
            status: DeliveryStatus::Sending(n as u8),
        }),
    decreases n,
{
    if n > 0 {
        lemma_retry_progression(payload, (n - 1) as nat);
    }
}

/// One negative acknowledgment never lowers the recorded attempt count:
/// from a slot that shows `Sending(k)` the ledger moves to `Sending(k + 1)`
/// or, at the ceiling, to `Failed` — never back.
pub proof fn lemma_no_attempt_regression(payload: Seq<u8>, k: u8)
    requires
        k < MAX_RETRIES,
    ensures
        ({
            let s = Slot {
                pending: Some(PendingView { payload, attempts: k }),
                status: DeliveryStatus::Sending(k),
            };
            nack_next(s).status == (if k + 1 >= MAX_RETRIES {
                DeliveryStatus::Failed
            } else {
                DeliveryStatus::Sending((k + 1) as u8)
            })
        }),
{
}

/// The retry ceiling: exactly `MAX_RETRIES` negative acknowledgments take a
/// fresh send to `Failed` with the pending message removed, and every
/// earlier point still shows `Sending` with the exact attempt count.
pub proof fn lemma_retry_ceiling(payload: Seq<u8>)
    ensures
        forall|n: nat|
            n < MAX_RETRIES ==> #[trigger] iter_nack(fresh_slot(payload), n) == (Slot {
                pending: Some(PendingView { payload, attempts: n as u8 }),
                status: DeliveryStatus::Sending(n as u8),
            }),
        iter_nack(fresh_slot(payload), MAX_RETRIES as nat) == (Slot {
            pending: None::<PendingView>,
            status: DeliveryStatus::Failed,
        }),
{
    assert forall|n: nat| n < MAX_RETRIES implies #[trigger] iter_nack(fresh_slot(payload), n)
        == (Slot {
        pending: Some(PendingView { payload, attempts: n as u8 }),
        status: DeliveryStatus::Sending(n as u8),
    }) by {
        lemma_retry_progression(payload, n);
    }
    lemma_retry_progression(payload, (MAX_RETRIES - 1) as nat);
}

} // verus!
