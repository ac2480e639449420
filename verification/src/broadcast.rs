//! The broadcast server: the registry of receiver connections and what one
//! distribution cycle does to it.

use vstd::prelude::*;
use crate::frame::{Frame, FrameView, DecodeError, encode_spec, decode_spec, lemma_decode_encode};
use crate::wire::{frame_message, message_spec, first_message, lemma_first_message, CLOSE_SENTINEL};

verus! {

/// The server as a mathematical value.
pub struct BroadcastView {
    /// Whether the listening socket has been bound.
    pub listening: bool,
    /// Whether a distribution cycle is to run.
    pub running: bool,
    /// The registered connections, oldest first.
    pub receivers: Seq<u64>,
    /// The identifier that the next connection gets.
    pub next_id: u64,
}

impl BroadcastView {
    /// Connections are registered in the order of their identifiers, and
    /// every identifier handed out lies below the next one.
    pub open spec fn wf(self) -> bool {
        &&& forall|i: int, j: int| 0 <= i < j < self.receivers.len() ==> self.receivers[i] < self.receivers[j]
        &&& forall|i: int| 0 <= i < self.receivers.len() ==> self.receivers[i] < self.next_id
    }
}

/// The caster's server: the listener's state and the receiver registry.
pub struct BroadcastServer {
    listening: bool,
    running: bool,
    receivers: Vec<u64>,
    next_id: u64,
}

/// What one distribution cycle writes, and to whom.
#[derive(Debug, PartialEq, Eq)]
pub struct FanOut {
    /// The length-prefixed message, the same for every connection.
    pub message: Vec<u8>,
    /// The connections to write it to, one write each.
    pub targets: Vec<u64>,
}

/// What stopping the server asks of the connections that were registered.
#[derive(Debug, PartialEq, Eq)]
pub struct Shutdown {
    /// The byte to write to each connection before it is shut down.
    pub sentinel: u8,
    /// The connections to notify and shut down.
    pub targets: Vec<u64>,
}

/// The registry after a cycle: connection `i` leaves if and only if its
/// write was attempted and failed.
pub open spec fn retained(receivers: Seq<u64>, delivered: Seq<bool>) -> Seq<u64>
    decreases receivers.len(),
{
    if receivers.len() == 0 {
        Seq::<u64>::empty()
    } else {
        let last = receivers.len() - 1;
        let before = retained(receivers.drop_last(), delivered);
        if last < delivered.len() && !delivered[last] {
            before
        } else {
            before.push(receivers[last])
        }
    }
}

impl View for BroadcastServer {
    type V = BroadcastView;

    closed spec fn view(&self) -> BroadcastView {
        BroadcastView {
            listening: self.listening,
            running: self.running,
            receivers: self.receivers@,
            next_id: self.next_id,
        }
    }
}

impl BroadcastServer {
    /// A server that has not listened yet and has no receivers.
    pub fn new() -> (server: BroadcastServer)
        ensures
            server@ == (BroadcastView { listening: false, running: false, receivers: Seq::<u64>::empty(), next_id: 0 }),
            server@.wf(),
    {
        BroadcastServer { listening: false, running: false, receivers: Vec::new(), next_id: 0 }
    }

    /// Starts a broadcast. Returns whether the listener has to be bound now:
    /// only the first start binds, later ones reuse the listener.
    pub fn start(&mut self) -> (bind: bool)
        ensures
            bind == !old(self)@.listening,
            final(self)@ == (BroadcastView { listening: true, running: true, ..old(self)@ }),
    {
        let bind = !self.listening;
        self.listening = true;
        self.running = true;
        bind
    }

    /// The accept loop has ended: the next start binds again.
    pub fn listener_closed(&mut self)
        ensures
            final(self)@ == (BroadcastView { listening: false, ..old(self)@ }),
    {
        self.listening = false;
    }

    /// Registers an accepted connection behind those already registered and
    /// returns its identifier, which no connection had before. `None`, with
    /// nothing changed, once the identifiers are used up.
    pub fn accept(&mut self) -> (id: Option<u64>)
        requires
            old(self)@.wf(),
        ensures
            final(self)@.wf(),
            match id {
                Some(n) => n == old(self)@.next_id && n < u64::MAX && final(self)@ == (BroadcastView {
                    receivers: old(self)@.receivers.push(n),
                    next_id: (n + 1) as u64,
                    ..old(self)@
                }),
                None => old(self)@.next_id == u64::MAX && final(self)@ == old(self)@,
            },
    {
        if self.next_id == u64::MAX {
            return None;
        }
        let id = self.next_id;
        self.next_id = id + 1;
        self.receivers.push(id);
        proof {
            let before = old(self)@.receivers;
            let after = self@.receivers;
            assert(after == before.push(id));
            assert forall|i: int, j: int| 0 <= i < j < after.len() implies after[i] < after[j] by {
                if j < before.len() {
                    assert(before[i] < before[j]);
                } else {
                    assert(before[i] < id);
                }
            }
        }
        Some(id)
    }

    /// Whether the registry is in order, for callers that cannot know it.
    pub fn is_well_formed(&self) -> (b: bool)
        ensures
            b == self@.wf(),
    {
        let n: usize = self.receivers.len();
        let mut i: usize = 0;
        while i < n
            invariant
                n == self.receivers@.len(),
                i <= n,
                forall|a: int| 0 <= a < i ==> self.receivers@[a] < self.next_id,
                forall|a: int| 0 < a < i ==> self.receivers@[a - 1] < #[trigger] self.receivers@[a],
            decreases n - i,
        {
            if self.receivers[i] >= self.next_id {
                assert(!(self@.receivers[i as int] < self@.next_id));
                return false;
            }
            if i > 0 && self.receivers[i - 1] >= self.receivers[i] {
                assert(!(self@.receivers[i - 1] < self@.receivers[i as int]));
                return false;
            }
            i += 1;
        }
        proof {
            lemma_adjacent_order(self.receivers@);
        }
        true
    }

    pub fn is_listening(&self) -> (b: bool)
        ensures
            b == self@.listening,
    {
        self.listening
    }

    pub fn is_running(&self) -> (b: bool)
        ensures
            b == self@.running,
    {
        self.running
    }

    /// The registered connections, oldest first.
    pub fn receivers(&self) -> (r: &Vec<u64>)
        ensures
            r@ == self@.receivers,
    {
        &self.receivers
    }

    /// The check at the start of a cycle: a stop request ends the
    /// distribution before the next capture.
    pub fn begin_cycle(&mut self, stop_requested: bool) -> (go_on: bool)
        ensures
            go_on == (old(self)@.running && !stop_requested),
            final(self)@ == (BroadcastView { running: go_on, ..old(self)@ }),
    {
        let go_on = self.running && !stop_requested;
        self.running = go_on;
        go_on
    }

    /// The writes of one cycle: the frame is encoded once, and the same
    /// message goes to every registered connection. `None` if and only if
    /// the encoded frame is too long for the length prefix.
    pub fn fan_out(&self, frame: &Frame) -> (plan: Option<FanOut>)
        ensures
            plan is Some <==> encode_spec(frame@).len() <= u32::MAX,
            plan matches Some(p) ==> p.message@ == message_spec(encode_spec(frame@)) && p.targets@
                == self@.receivers,
    {
        let payload = frame.encode();
        match frame_message(payload.as_slice()) {
            None => None,
            Some(message) => {
                let targets = copy_ids(&self.receivers);
                Some(FanOut { message, targets })
            },
        }
    }

    /// Ends a cycle: `delivered[i]` says whether the write to the `i`-th
    /// target succeeded. Every connection whose write failed leaves the
    /// registry; the others stay, in their order.
    pub fn prune(&mut self, delivered: &Vec<bool>) -> (dropped: usize)
        requires
            old(self)@.wf(),
        ensures
            final(self)@.wf(),
            final(self)@ == (BroadcastView { receivers: retained(old(self)@.receivers, delivered@), ..old(self)@ }),
            dropped == old(self)@.receivers.len() - final(self)@.receivers.len(),
    {
        let n: usize = self.receivers.len();
        let mut kept: Vec<u64> = Vec::new();
        proof {
            let before = self@.receivers;
            assert(before == self.receivers@);
            assert forall|a: int, b: int| 0 <= a < b < n implies self.receivers@[a] < self.receivers@[b] by {
                assert(before[a] < before[b]);
            }
            assert forall|a: int| 0 <= a < n implies self.receivers@[a] < self.next_id by {
                assert(before[a] < self@.next_id);
            }
        }
        let mut i: usize = 0;
        while i < n
            invariant
                n == self.receivers.len(),
                i <= n,
                kept@ == retained(self.receivers@.take(i as int), delivered@),
                kept@.len() <= i,
                forall|a: int, b: int| 0 <= a < b < n ==> self.receivers@[a] < self.receivers@[b],
                forall|a: int| 0 <= a < n ==> self.receivers@[a] < self.next_id,
                forall|a: int, b: int| 0 <= a < kept@.len() && i <= b < n ==> kept@[a] < self.receivers@[b],
                forall|a: int, b: int| 0 <= a < b < kept@.len() ==> kept@[a] < kept@[b],
                forall|a: int| 0 <= a < kept@.len() ==> kept@[a] < self.next_id,
            decreases n - i,
        {
            proof {
                assert(self.receivers@.take(i as int + 1).drop_last() =~= self.receivers@.take(i as int));
            }
            if i < delivered.len() && !delivered[i] {
            } else {
                kept.push(self.receivers[i]);
            }
            i += 1;
        }
        proof {
            assert(self.receivers@.take(n as int) =~= self.receivers@);
        }
        let dropped = n - kept.len();
        self.receivers = kept;
        dropped
    }

    /// Stops the server: the distribution ends, every registered connection
    /// is to be sent the close sentinel and shut down, and the registry is
    /// empty afterwards. The listener stays.
    pub fn stop(&mut self) -> (shutdown: Shutdown)
        ensures
            shutdown.sentinel == CLOSE_SENTINEL,
            shutdown.targets@ == old(self)@.receivers,
            final(self)@ == (BroadcastView { running: false, receivers: Seq::<u64>::empty(), ..old(self)@ }),
    {
        let targets = copy_ids(&self.receivers);
        self.running = false;
        self.receivers = Vec::new();
        Shutdown { sentinel: CLOSE_SENTINEL, targets }
    }
}

/// A copy of a list of connection identifiers.
fn copy_ids(ids: &Vec<u64>) -> (copy: Vec<u64>)
    ensures
        copy@ == ids@,
{
    let mut copy: Vec<u64> = Vec::new();
    let mut i: usize = 0;
    while i < ids.len()
        invariant
            i <= ids.len(),
            copy@ == ids@.take(i as int),
        decreases ids.len() - i,
    {
        copy.push(ids[i]);
        proof {
            assert(ids@.take(i as int + 1) =~= ids@.take(i as int).push(ids@[i as int]));
        }
        i += 1;
    }
    proof {
        assert(ids@.take(ids.len() as int) =~= ids@);
    }
    copy
}

/// Identifiers that grow from each to the next grow from each to every
/// later one.
pub proof fn lemma_adjacent_order(ids: Seq<u64>)
    requires
        forall|a: int| 0 < a < ids.len() ==> ids[a - 1] < #[trigger] ids[a],
    ensures
        forall|i: int, j: int| 0 <= i < j < ids.len() ==> ids[i] < ids[j],
    decreases ids.len(),
{
    if ids.len() > 1 {
        let shorter = ids.drop_last();
        assert forall|a: int| 0 < a < shorter.len() implies shorter[a - 1] < #[trigger] shorter[a] by {
            assert(ids[a - 1] < ids[a]);
        }
        lemma_adjacent_order(shorter);
        let last = ids.len() - 1;
        assert forall|i: int, j: int| 0 <= i < j < ids.len() implies ids[i] < ids[j] by {
            if j < last {
                assert(shorter[i] < shorter[j]);
            } else {
                assert(ids[last - 1] < ids[last]);
                if i < last - 1 {
                    assert(shorter[i] < shorter[last - 1]);
                }
            }
        }
    }
}

/// A cycle in which every write succeeds leaves the registry as it was.
pub proof fn lemma_all_delivered(receivers: Seq<u64>, delivered: Seq<bool>)
    requires
        forall|i: int| 0 <= i < receivers.len() && i < delivered.len() ==> delivered[i],
    ensures
        retained(receivers, delivered) == receivers,
    decreases receivers.len(),
{
    if receivers.len() > 0 {
        lemma_all_delivered(receivers.drop_last(), delivered);
        assert(receivers.drop_last().push(receivers.last()) =~= receivers);
    }
}

/// Fan-out isolation: when of `N` registered connections only the write to
/// the `k`-th fails, the registry afterwards holds the other `N - 1`, in
/// their order, and not the `k`-th.
pub proof fn lemma_fan_out_isolation(receivers: Seq<u64>, delivered: Seq<bool>, k: int)
    requires
        delivered.len() == receivers.len(),
        0 <= k < receivers.len(),
        forall|i: int| 0 <= i < receivers.len() ==> (delivered[i] <==> i != k),
    ensures
        retained(receivers, delivered) == receivers.remove(k),
        retained(receivers, delivered).len() == receivers.len() - 1,
    decreases receivers.len(),
{
    let last = receivers.len() - 1;
    if k == last {
        lemma_all_delivered(receivers.drop_last(), delivered);
        assert(receivers.remove(k) =~= receivers.drop_last());
    } else {
        let shorter = receivers.drop_last();
        let outcomes = delivered.drop_last();
        lemma_fan_out_isolation(shorter, outcomes, k);
        lemma_retained_prefix(shorter, delivered, outcomes);
        assert(receivers.remove(k) =~= shorter.remove(k).push(receivers[last]));
    }
}

/// Outcomes beyond the registry's length do not matter.
pub proof fn lemma_retained_prefix(receivers: Seq<u64>, delivered: Seq<bool>, outcomes: Seq<bool>)
    requires
        outcomes.len() >= receivers.len(),
        delivered.len() >= receivers.len(),
        forall|i: int| 0 <= i < receivers.len() ==> delivered[i] == outcomes[i],
    ensures
        retained(receivers, delivered) == retained(receivers, outcomes),
    decreases receivers.len(),
{
    if receivers.len() > 0 {
        lemma_retained_prefix(receivers.drop_last(), delivered, outcomes);
    }
}

/// The message of a cycle is correctly framed: a receiver that reads it
/// from its stream, whatever follows, gets the encoded frame, and decoding
/// that gives the frame.
pub proof fn lemma_message_carries_frame(frame: FrameView, rest: Seq<u8>)
    requires
        frame.wf(),
        encode_spec(frame).len() <= u32::MAX,
    ensures
        first_message(message_spec(encode_spec(frame)) + rest) == Some(
            (encode_spec(frame), 4 + encode_spec(frame).len() as int),
        ),
        decode_spec(encode_spec(frame)) == Ok::<FrameView, DecodeError>(frame),
{
    lemma_first_message(encode_spec(frame), rest);
    lemma_decode_encode(frame);
}

/// A connection whose write failed is in the registry no more, when no
/// identifier is registered twice.
pub proof fn lemma_failed_connection_leaves(receivers: Seq<u64>, delivered: Seq<bool>, k: int)
    requires
        0 <= k < receivers.len(),
        k < delivered.len(),
        !delivered[k],
        forall|i: int, j: int| 0 <= i < j < receivers.len() ==> receivers[i] < receivers[j],
    ensures
        !retained(receivers, delivered).contains(receivers[k]),
    decreases receivers.len(),
{
    let last = receivers.len() - 1;
    let shorter = receivers.drop_last();
    let before = retained(shorter, delivered);
    if k == last {
        lemma_retained_below(shorter, delivered, receivers[last]);
    } else {
        lemma_failed_connection_leaves(shorter, delivered, k);
        assert(shorter[k] == receivers[k]);
        assert(receivers[k] < receivers[last]);
    }
}

/// What stays in the registry lies below every bound that held before.
pub proof fn lemma_retained_below(receivers: Seq<u64>, delivered: Seq<bool>, bound: u64)
    requires
        forall|i: int| 0 <= i < receivers.len() ==> receivers[i] < bound,
    ensures
        forall|a: int| 0 <= a < retained(receivers, delivered).len() ==> retained(receivers, delivered)[a] < bound,
    decreases receivers.len(),
{
    if receivers.len() > 0 {
        let shorter = receivers.drop_last();
        let before = retained(shorter, delivered);
        let kept = retained(receivers, delivered);
        lemma_retained_below(shorter, delivered, bound);
        assert forall|a: int| 0 <= a < kept.len() implies kept[a] < bound by {
            if a < before.len() {
                assert(kept[a] == before[a]);
            } else {
                assert(kept[a] == receivers[receivers.len() - 1]);
            }
        }
    }
}

} // verus!
