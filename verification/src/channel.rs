//! Confirmation-channel bookkeeping.
//!
//! One streaming connection multiplexes many outstanding "wait until this
//! signature confirms" requests. A waiter registers under a fresh,
//! caller-side request id; the subscribe request carries that id out on the
//! socket. The server answers with an acknowledgement that assigns its own
//! subscription number, and later pushes a notification that carries only
//! that number, so notifications are routed back through a subscription
//! index. This module owns every routing decision; the socket itself, and
//! the wake signals the decisions drive, live with the caller.

use std::collections::HashMap;

use vstd::prelude::*;

use crate::errors::{Error, ErrorKind};
use crate::numeric::{format_u64, spec_decimal};

verus! {

broadcast use vstd::std_specs::hash::group_hash_axioms;

/// One outstanding confirmation wait: the signature it watches and whether
/// its notification has arrived.
pub struct Waiter {
    pub signature: String,
    pub woken: bool,
}

/// The routing state of the confirmation channel.
///
/// `pending` maps each caller-side request id to its waiter; `subs_to_id`
/// translates a server-assigned subscription number back to the request id
/// its acknowledgement answered. Request ids are handed out from a counter,
/// so every id is unique for the lifetime of the channel.
pub struct ConfirmationChannel {
    connected: bool,
    next_request_id: u64,
    pending: HashMap<u64, Waiter>,
    subs_to_id: HashMap<u64, u64>,
}

impl ConfirmationChannel {
    pub closed spec fn spec_connected(&self) -> bool {
        self.connected
    }

    pub closed spec fn spec_next_request_id(&self) -> u64 {
        self.next_request_id
    }

    pub closed spec fn spec_pending(&self) -> Map<u64, Waiter> {
        self.pending@
    }

    pub closed spec fn spec_subs(&self) -> Map<u64, u64> {
        self.subs_to_id@
    }

    /// Every pending request id was handed out by the counter, so the next
    /// id is always fresh.
    pub open spec fn wf(&self) -> bool {
        forall|k: u64|
            self.spec_pending().contains_key(k) ==> k < self.spec_next_request_id()
    }

    /// A channel that has not connected yet: no waiters, no subscriptions.
    pub fn new() -> (c: ConfirmationChannel)
        ensures
            c.wf(),
            !c.spec_connected(),
            c.spec_next_request_id() == 0,
            c.spec_pending() == Map::<u64, Waiter>::empty(),
            c.spec_subs() == Map::<u64, u64>::empty(),
    {
        ConfirmationChannel {
            connected: false,
            next_request_id: 0,
            pending: HashMap::new(),
            subs_to_id: HashMap::new(),
        }
    }

    pub fn is_connected(&self) -> (b: bool)
        ensures
            b == self.spec_connected(),
    {
        self.connected
    }

    /// The writer half of the socket was found unusable.
    pub fn mark_disconnected(&mut self)
        requires
            old(self).wf(),
        ensures
            final(self).wf(),
            !final(self).spec_connected(),
            final(self).spec_next_request_id() == old(self).spec_next_request_id(),
            final(self).spec_pending() == old(self).spec_pending(),
            final(self).spec_subs() == old(self).spec_subs(),
    {
        self.connected = false;
        proof {
            assert forall|k: u64| self.pending@.contains_key(k) implies k
                < self.next_request_id by {
                assert(old(self).spec_pending().contains_key(k));
            }
        }
    }

    /// A full reconnect discards all in-flight state: every waiter that was
    /// registered before the reconnect is orphaned and will never be woken —
    /// a documented limitation, not silent recovery. The id counter is kept,
    /// so ids never repeat across reconnects.
    pub fn reconnect(&mut self)
        ensures
            final(self).wf(),
            final(self).spec_connected(),
            final(self).spec_next_request_id() == old(self).spec_next_request_id(),
            final(self).spec_pending() == Map::<u64, Waiter>::empty(),
            final(self).spec_subs() == Map::<u64, u64>::empty(),
    {
        self.pending.clear();
        self.subs_to_id.clear();
        self.connected = true;
    }

    /// Register a new confirmation wait for `signature` and hand back its
    /// fresh request id. The channel must be connected: on a dead connection
    /// the caller reconnects first, which orphans older waits.
    pub fn register_wait(&mut self, signature: String) -> (id: u64)
        requires
            old(self).wf(),
            old(self).spec_connected(),
            old(self).spec_next_request_id() < u64::MAX,
        ensures
            final(self).wf(),
            id == old(self).spec_next_request_id(),
            !old(self).spec_pending().contains_key(id),
            final(self).spec_pending() == old(self).spec_pending().insert(
                id,
                (Waiter { signature, woken: false }),
            ),
            final(self).spec_subs() == old(self).spec_subs(),
            final(self).spec_connected(),
            final(self).spec_next_request_id() == id + 1,
    {
        let id = self.next_request_id;
        self.next_request_id = self.next_request_id + 1;
        self.pending.insert(id, Waiter { signature, woken: false });
        proof {
            assert forall|k: u64| self.pending@.contains_key(k) implies k
                < self.next_request_id by {
                if k != id {
                    assert(old(self).spec_pending().contains_key(k));
                }
            }
        }
        id
    }

    /// A subscription acknowledgement arrived: the server answered request
    /// `request_id` with subscription number `subscription`. The translation
    /// is recorded so later notifications can be routed. An acknowledgement
    /// for an unknown request, or a subscription number already in use, is a
    /// protocol violation and changes nothing.
    pub fn on_ack(&mut self, request_id: u64, subscription: u64) -> (r: Result<(), Error>)
        requires
            old(self).wf(),
        ensures
            final(self).wf(),
            r is Ok <==> (old(self).spec_pending().contains_key(request_id) && !old(self).spec_subs().contains_key(subscription)),
            r is Ok ==> final(self).spec_subs() == old(self).spec_subs().insert(
                subscription,
                request_id,
            ),
            r matches Err(e) ==> (e.spec_kind() == ErrorKind::Protocol && final(self).spec_subs()
                == old(self).spec_subs()),
            final(self).spec_pending() == old(self).spec_pending(),
            final(self).spec_connected() == old(self).spec_connected(),
            final(self).spec_next_request_id() == old(self).spec_next_request_id(),
    {
        if !self.pending.contains_key(&request_id) {
            return Err(Error::new(
                ErrorKind::Protocol,
                String::from_str("acknowledgement for an unknown request id"),
            ));
        }
        if self.subs_to_id.contains_key(&subscription) {
            return Err(Error::new(
                ErrorKind::Protocol,
                String::from_str("subscription number acknowledged twice"),
            ));
        }
        self.subs_to_id.insert(subscription, request_id);
        proof {
            assert forall|k: u64| self.pending@.contains_key(k) implies k
                < self.next_request_id by {
                assert(old(self).spec_pending().contains_key(k));
            }
        }
        Ok(())
    }

    /// A push notification arrived for subscription number `subscription`.
    /// It is routed through the subscription index to the request id whose
    /// waiter it wakes; that waiter, and only that waiter, is marked woken,
    /// and its id is returned so the caller can fire the wake signal. A
    /// notification whose subscription is unknown, or whose waiter is gone,
    /// cannot be routed: that is a protocol violation, not silence.
    pub fn on_notification(&mut self, subscription: u64) -> (r: Result<u64, Error>)
        requires
            old(self).wf(),
        ensures
            final(self).wf(),
            r is Ok <==> (old(self).spec_subs().contains_key(subscription) && old(self).spec_pending().contains_key(old(self).spec_subs()[subscription])),
            r matches Ok(id) ==> {
                &&& id == old(self).spec_subs()[subscription]
                &&& final(self).spec_pending() == old(self).spec_pending().insert(
                    id,
                    (Waiter {
                        signature: old(self).spec_pending()[id].signature,
                        woken: true,
                    }),
                )
            },
            r matches Err(e) ==> (e.spec_kind() == ErrorKind::Protocol && final(self).spec_pending() == old(self).spec_pending()),
            final(self).spec_subs() == old(self).spec_subs(),
            final(self).spec_connected() == old(self).spec_connected(),
            final(self).spec_next_request_id() == old(self).spec_next_request_id(),
    {
        let id = match self.subs_to_id.get(&subscription) {
            Some(id) => *id,
            None => {
                return Err(Error::new(
                    ErrorKind::Protocol,
                    String::from_str("notification for an unknown subscription"),
                ));
            },
        };
        let waiter = match self.pending.remove(&id) {
            Some(w) => w,
            None => {
                proof {
                    assert(self.pending@ =~= old(self).spec_pending());
                }
                return Err(Error::new(
                    ErrorKind::Protocol,
                    String::from_str("notification for an abandoned waiter"),
                ));
            },
        };
        self.pending.insert(id, Waiter { signature: waiter.signature, woken: true });
        proof {
            assert forall|k: u64| self.pending@.contains_key(k) implies k
                < self.next_request_id by {
                assert(old(self).spec_pending().contains_key(k));
            }
            assert(self.pending@ =~= old(self).spec_pending().insert(
                id,
                (Waiter { signature: old(self).spec_pending()[id].signature, woken: true }),
            ));
        }
        Ok(id)
    }

    /// Whether the waiter under `request_id` exists and has been woken.
    pub fn waiter_woken(&self, request_id: u64) -> (r: Option<bool>)
        ensures
            self.spec_pending().contains_key(request_id) ==> r == Some(
                self.spec_pending()[request_id].woken,
            ),
            !self.spec_pending().contains_key(request_id) ==> r is None,
    {
        match self.pending.get(&request_id) {
            Some(w) => Some(w.woken),
            None => None,
        }
    }

    /// A woken waiter removes its own entry once its wait resolves.
    pub fn complete_wait(&mut self, request_id: u64)
        requires
            old(self).wf(),
            old(self).spec_pending().contains_key(request_id),
            old(self).spec_pending()[request_id].woken,
        ensures
            final(self).wf(),
            final(self).spec_pending() == old(self).spec_pending().remove(request_id),
            final(self).spec_subs() == old(self).spec_subs(),
            final(self).spec_connected() == old(self).spec_connected(),
            final(self).spec_next_request_id() == old(self).spec_next_request_id(),
    {
        self.pending.remove(&request_id);
        proof {
            assert forall|k: u64| self.pending@.contains_key(k) implies k
                < self.next_request_id by {
                assert(old(self).spec_pending().contains_key(k));
            }
        }
    }
}

/// The signature-subscribe frame sent for one wait: a JSON-RPC request
/// carrying the caller-side request id and the signature to watch, asking
/// for confirmed commitment.
pub open spec fn spec_subscribe_frame(id: u64, signature: Seq<char>) -> Seq<char> {
    "{\"jsonrpc\":\"2.0\",\"id\":\""@ + spec_decimal(id as int)
        + "\",\"method\":\"signatureSubscribe\",\"params\":[\""@ + signature
        + "\",{\"commitment\":\"confirmed\"}]}"@
}

/// Render the subscribe frame for a wait. The signature is embedded as it
/// is, so it must not need JSON escaping; base58 text never does.
pub fn subscribe_frame(id: u64, signature: &str) -> (r: String)
    ensures
        r@ == spec_subscribe_frame(id, signature@),
{
    proof {
        reveal_strlit("{\"jsonrpc\":\"2.0\",\"id\":\"");
        reveal_strlit("\",\"method\":\"signatureSubscribe\",\"params\":[\"");
        reveal_strlit("\",{\"commitment\":\"confirmed\"}]}");
    }
    let mut r = String::from_str("{\"jsonrpc\":\"2.0\",\"id\":\"");
    let id_str = format_u64(id);
    r.append(id_str.as_str());
    r.append("\",\"method\":\"signatureSubscribe\",\"params\":[\"");
    r.append(signature);
    r.append("\",{\"commitment\":\"confirmed\"}]}");
    proof {
        assert(r@ =~= spec_subscribe_frame(id, signature@));
    }
    r
}

/// Once an acknowledgement has correlated subscription number `n` to waiter
/// `a`, the notification carrying `n` routes to `a` and wakes exactly `a`:
/// any other waiter `b` registered concurrently is left as it was.
pub proof fn lemma_notification_wakes_exactly_one(
    pending: Map<u64, Waiter>,
    subs: Map<u64, u64>,
    a: u64,
    b: u64,
    n: u64,
)
    requires
        pending.contains_key(a),
        pending.contains_key(b),
        a != b,
        !subs.contains_key(n),
    ensures
        ({
            let subs1 = subs.insert(n, a);
            let pending1 = pending.insert(
                a,
                (Waiter { signature: pending[a].signature, woken: true }),
            );
            &&& subs1.contains_key(n) && subs1[n] == a
            &&& pending1[a].woken
            &&& pending1.contains_key(b) && pending1[b] == pending[b]
        }),
{
}

/// After a reconnect the channel is empty: every wait registered before it
/// is gone and can never be woken again, while a wait registered after it is
/// routed exactly as on a fresh channel — the acknowledgement correlates it,
/// the notification wakes it.
pub proof fn lemma_reconnect_orphans_old_and_serves_new(
    old_pending: Map<u64, Waiter>,
    stale: u64,
    id: u64,
    n: u64,
    sig: Seq<char>,
    w: Waiter,
)
    requires
        old_pending.contains_key(stale),
        w.signature@ == sig,
        !w.woken,
    ensures
        !Map::<u64, Waiter>::empty().contains_key(stale),
        ({
            let pending1 = Map::<u64, Waiter>::empty().insert(id, w);
            let subs1 = Map::<u64, u64>::empty().insert(n, id);
            &&& pending1.contains_key(id) && !pending1[id].woken
            &&& subs1.contains_key(n) && subs1[n] == id
            &&& pending1.insert(id, (Waiter { signature: w.signature, woken: true }))[id].woken
        }),
{
}

} // verus!
