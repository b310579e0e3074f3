//! The client registry: the set of connected TCP peers, keyed by address, each
//! with the handle the broadcaster writes through.
use std::collections::HashMap;
use vstd::prelude::*;
use vstd::std_specs::hash::*;
use vstd::std_specs::iter::IteratorSpec;

verus! {

broadcast use vstd::std_specs::hash::group_hash_axioms;

/// Largest registry key plus one: an IPv4 address and a port take 48 bits.
pub open spec fn key_bound() -> int {
    0x1_0000_0000_0000
}

/// The IPv4 address and port of a TCP peer.
#[derive(Debug, Clone, Copy, PartialEq, Eq, Structural)]
pub struct PeerAddr {
    /// The address, most significant octet first (`a.b.c.d` is `a << 24 | b << 16 | c << 8 | d`)
    pub ip: u32,
    /// The port
    pub port: u16,
}

impl PeerAddr {
    /// The registry key of the address: the address and then the port, in 48 bits.
    pub open spec fn key_spec(&self) -> u64 {
        (self.ip as int * 65536 + self.port as int) as u64
    }

    /// The registry key of the address.
    pub fn key(&self) -> (r: u64)
        ensures
            r == self.key_spec(),
            r < key_bound(),
    {
        self.ip as u64 * 65536 + self.port as u64
    }

    /// The address whose registry key is `k`.
    pub fn from_key(k: u64) -> (r: PeerAddr)
        requires
            k < key_bound(),
        ensures
            r.key_spec() == k,
    {
        let r = PeerAddr { ip: (k / 65536) as u32, port: (k % 65536) as u16 };
        assert(r.ip as int * 65536 + r.port as int == k) by (nonlinear_arith)
            requires
                k < 0x1_0000_0000_0000,
                r.ip == k / 65536,
                r.port == k % 65536,
        ;
        r
    }
}

/// Two addresses with one key are the same address.
pub proof fn lemma_key_injective(a: PeerAddr, b: PeerAddr)
    ensures
        a.key_spec() == b.key_spec() ==> a == b,
{
    if a.key_spec() == b.key_spec() {
        assert(a.ip == b.ip && a.port == b.port) by (nonlinear_arith)
            requires
                a.ip as int * 65536 + a.port as int == b.ip as int * 65536 + b.port as int,
                a.port < 65536,
                b.port < 65536,
        ;
    }
}

/// How one write attempt to a client went, as the transport reported it.
#[derive(Debug, Clone, Copy, PartialEq, Eq, Structural)]
pub enum IoStatus {
    /// The operation completed.
    Done,
    /// Would block or timed out: the connection is still usable.
    Transient,
    /// Any other failure (broken pipe, reset): the connection is unusable.
    Failed,
}

/// What a broadcast did for one client.
#[derive(Debug, Clone, Copy, PartialEq, Eq, Structural)]
pub enum Delivery {
    /// The whole frame was written.
    Delivered,
    /// The frame was dropped for this client, which stays registered.
    Dropped,
    /// The client is gone and leaves the registry.
    Disconnected,
}

/// The delivery of a frame from the status of its write and of the flush after
/// it. `flush` is looked at only when the write completed. A flush that would
/// block still counts the frame as delivered.
pub fn delivery_of(write: IoStatus, flush: IoStatus) -> (r: Delivery)
    ensures
        r == (match write {
            IoStatus::Done => match flush {
                IoStatus::Failed => Delivery::Disconnected,
                _ => Delivery::Delivered,
            },
            IoStatus::Transient => Delivery::Dropped,
            IoStatus::Failed => Delivery::Disconnected,
        }),
{
    match write {
        IoStatus::Done => match flush {
            IoStatus::Failed => Delivery::Disconnected,
            _ => Delivery::Delivered,
        },
        IoStatus::Transient => Delivery::Dropped,
        IoStatus::Failed => Delivery::Disconnected,
    }
}

/// The number of clients that received the frame.
pub open spec fn delivered_count(outcomes: Seq<(PeerAddr, Delivery)>) -> nat
    decreases outcomes.len(),
{
    if outcomes.len() == 0 {
        0
    } else {
        delivered_count(outcomes.drop_last()) + if outcomes.last().1 == Delivery::Delivered {
            1nat
        } else {
            0nat
        }
    }
}

/// The keys of the clients that a broadcast found gone.
pub open spec fn disconnected_keys(outcomes: Seq<(PeerAddr, Delivery)>) -> Set<u64> {
    Set::new(
        |k: u64|
            exists|i: int|
                0 <= i < outcomes.len() && (#[trigger] outcomes[i]).1 == Delivery::Disconnected
                    && outcomes[i].0.key_spec() == k,
    )
}

/// `targets` lists every client of `clients` once, each with a clone of its handle.
pub open spec fn is_snapshot<T: Clone>(targets: Seq<(PeerAddr, T)>, clients: Map<u64, T>) -> bool {
    &&& targets.len() == clients.len()
    &&& forall|i: int|
        0 <= i < targets.len() ==> clients.contains_key((#[trigger] targets[i]).0.key_spec())
            && cloned::<T>(clients[targets[i].0.key_spec()], targets[i].1)
    &&& forall|i: int, j: int|
        0 <= i < j < targets.len() ==> (#[trigger] targets[i]).0 != (#[trigger] targets[j]).0
    &&& forall|k: u64|
        #[trigger] clients.contains_key(k) ==> exists|i: int|
            0 <= i < targets.len() && (#[trigger] targets[i]).0.key_spec() == k
}

/// The clients that a broadcast of `data` goes to: none for an empty frame, else
/// every client of `clients` once.
pub open spec fn targets_spec<T: Clone>(data: Seq<u8>, targets: Seq<(PeerAddr, T)>, clients: Map<u64, T>) -> bool {
    &&& data.len() == 0 ==> targets.len() == 0
    &&& data.len() > 0 ==> is_snapshot(targets, clients)
}

/// The registry of connected clients. `T` is the handle through which a client is
/// written to; the registry only stores and hands out copies of it.
pub struct TcpClientManager<T> {
    clients: HashMap<u64, T>,
}

impl<T> View for TcpClientManager<T> {
    type V = Map<u64, T>;

    closed spec fn view(&self) -> Map<u64, T> {
        self.clients@
    }
}

impl<T> TcpClientManager<T> {
    /// Every key is the key of an address.
    pub closed spec fn wf(&self) -> bool {
        forall|k: u64| #[trigger] self.clients@.contains_key(k) ==> k < key_bound()
    }

    /// An empty registry.
    pub fn new() -> (r: Self)
        ensures
            r.wf(),
            r@ == Map::<u64, T>::empty(),
    {
        TcpClientManager { clients: HashMap::new() }
    }

    /// Whether a client with address `addr` is registered.
    pub fn is_client_connected(&self, addr: &PeerAddr) -> (r: bool)
        ensures
            r == self@.contains_key(addr.key_spec()),
    {
        self.clients.contains_key(&addr.key())
    }

    /// Registers `stream` as the handle of the client at `addr`, replacing the one
    /// registered before for that address. Returns whether the address is new.
    pub fn add_client(&mut self, addr: PeerAddr, stream: T) -> (is_new: bool)
        requires
            old(self).wf(),
        ensures
            final(self).wf(),
            final(self)@ == old(self)@.insert(addr.key_spec(), stream),
            is_new == !old(self)@.contains_key(addr.key_spec()),
    {
        let previous = self.clients.insert(addr.key(), stream);
        previous.is_none()
    }

    /// Removes the client at `addr`, if it is registered. Returns whether it was.
    pub fn remove_client(&mut self, addr: &PeerAddr) -> (removed: bool)
        requires
            old(self).wf(),
        ensures
            final(self).wf(),
            final(self)@ == old(self)@.remove(addr.key_spec()),
            removed == old(self)@.contains_key(addr.key_spec()),
    {
        let previous = self.clients.remove(&addr.key());
        previous.is_some()
    }

    /// The number of registered clients.
    pub fn client_count(&self) -> (r: usize)
        ensures
            r == self@.len(),
    {
        self.clients.len()
    }

    /// Applies what a broadcast found: every client in `outcomes` whose delivery is
    /// `Disconnected` leaves the registry. Returns the number of clients that
    /// received the frame.
    pub fn finish_broadcast(&mut self, outcomes: &[(PeerAddr, Delivery)]) -> (sent: usize)
        requires
            old(self).wf(),
        ensures
            final(self).wf(),
            final(self)@ == old(self)@.remove_keys(disconnected_keys(outcomes@)),
            sent == delivered_count(outcomes@),
    {
        let ghost start = self@;
        let mut sent: usize = 0;
        let mut i: usize = 0;
        while i < outcomes.len()
            invariant
                self.wf(),
                i <= outcomes@.len(),
                sent == delivered_count(outcomes@.subrange(0, i as int)),
                sent <= i,
                self@ == start.remove_keys(disconnected_keys(outcomes@.subrange(0, i as int))),
            decreases outcomes@.len() - i,
        {
            let ghost before = outcomes@.subrange(0, i as int);
            let ghost after = outcomes@.subrange(0, i + 1);
            assert(after.drop_last() =~= before);
            let (addr, delivery) = outcomes[i];
            match delivery {
                Delivery::Delivered => {
                    sent = sent + 1;
                },
                Delivery::Dropped => {},
                Delivery::Disconnected => {
                    self.remove_client(&addr);
                },
            }
            proof {
                let ks = disconnected_keys(after);
                let kb = disconnected_keys(before);
                if delivery == Delivery::Disconnected {
                    assert(ks =~= kb.insert(addr.key_spec())) by {
                        assert(after[i as int] == outcomes@[i as int]);
                        assert forall|k: u64| ks.contains(k) implies #[trigger] kb.insert(addr.key_spec()).contains(k) by {
                            let j = choose|j: int|
                                0 <= j < after.len() && (#[trigger] after[j]).1 == Delivery::Disconnected
                                    && after[j].0.key_spec() == k;
                            if j < i {
                                assert(before[j] == after[j]);
                            }
                        }
                        assert forall|k: u64| #[trigger] kb.contains(k) implies ks.contains(k) by {
                            let j = choose|j: int|
                                0 <= j < before.len() && (#[trigger] before[j]).1 == Delivery::Disconnected
                                    && before[j].0.key_spec() == k;
                            assert(before[j] == after[j]);
                        }
                    }
                    assert(start.remove_keys(ks) =~= start.remove_keys(kb).remove(addr.key_spec()));
                } else {
                    assert(ks =~= kb) by {
                        assert forall|k: u64| ks.contains(k) implies #[trigger] kb.contains(k) by {
                            let j = choose|j: int|
                                0 <= j < after.len() && (#[trigger] after[j]).1 == Delivery::Disconnected
                                    && after[j].0.key_spec() == k;
                            if j < i {
                                assert(before[j] == after[j]);
                            } else {
                                assert(after[j] == outcomes@[i as int]);
                            }
                        }
                        assert forall|k: u64| #[trigger] kb.contains(k) implies ks.contains(k) by {
                            let j = choose|j: int|
                                0 <= j < before.len() && (#[trigger] before[j]).1 == Delivery::Disconnected
                                    && before[j].0.key_spec() == k;
                            assert(before[j] == after[j]);
                        }
                    }
                }
            }
            i = i + 1;
        }
        assert(outcomes@.subrange(0, i as int) =~= outcomes@);
        sent
    }
}

impl<T: Clone> TcpClientManager<T> {
    /// The clients a broadcast of `data` goes to, each with a copy of its handle:
    /// none for an empty frame, else every registered client once. The copies are
    /// written to without holding the registry.
    pub fn broadcast_targets(&self, data: &[u8]) -> (r: Vec<(PeerAddr, T)>)
        requires
            self.wf(),
        ensures
            targets_spec(data@, r@, self@),
    {
        let mut out: Vec<(PeerAddr, T)> = Vec::new();
        if data.len() == 0 {
            return out;
        }
        let ghost m = self.clients@;
        let ghost s = spec_hash_map_iter(&self.clients).remaining();
        let iter = self.clients.iter();
        assert(s.no_duplicates());
        for entry in it: iter
            invariant
                self.wf(),
                m == self.clients@,
                it.seq() == s,
                s == spec_hash_map_iter(&self.clients).remaining(),
                out@.len() == it.index(),
                forall|i: int|
                    0 <= i < it.index() ==> (#[trigger] out@[i]).0.key_spec() == *s[i].0
                        && cloned::<T>(*s[i].1, out@[i].1),
        {
            let (k, v) = entry;
            assert(m.contains_key(*s[it.index()].0));
            let addr = PeerAddr::from_key(*k);
            out.push((addr, v.clone()));
        }
        proof {
            assert(out@.len() == m.len());
            assert forall|i: int| 0 <= i < out@.len() implies m.contains_key((#[trigger] out@[i]).0.key_spec())
                && cloned::<T>(m[out@[i].0.key_spec()], out@[i].1) by {
                assert(m.contains_key(*s[i].0));
            }
            assert forall|i: int, j: int| 0 <= i < j < out@.len() implies (#[trigger] out@[i]).0 != (#[trigger] out@[j]).0 by {
                if out@[i].0 == out@[j].0 {
                    assert(m.contains_key(*s[i].0));
                    assert(m.contains_key(*s[j].0));
                    assert(s[i] == s[j]);
                }
            }
            assert forall|k: u64| #[trigger] m.contains_key(k) implies exists|i: int|
                0 <= i < out@.len() && (#[trigger] out@[i]).0.key_spec() == k by {
                assert(s.contains((&k, &m[k])));
                let i = choose|i: int| 0 <= i < s.len() && s[i] == (&k, &m[k]);
                assert(out@[i].0.key_spec() == k);
            }
        }
        out
    }
}

/// One change to the registry: a client added with its handle, or removed.
pub enum RegistryOp<T> {
    /// `add_client` of the address with the handle
    Add(PeerAddr, T),
    /// `remove_client` of the address
    Remove(PeerAddr),
}

/// The address a change is about.
pub open spec fn op_addr<T>(op: RegistryOp<T>) -> PeerAddr {
    match op {
        RegistryOp::Add(a, _) => a,
        RegistryOp::Remove(a) => a,
    }
}

/// The registry's contents after the changes `ops`, made to `m` in order, each as
/// `add_client` and `remove_client` state it.
pub open spec fn replay<T>(m: Map<u64, T>, ops: Seq<RegistryOp<T>>) -> Map<u64, T>
    decreases ops.len(),
{
    if ops.len() == 0 {
        m
    } else {
        let before = replay(m, ops.drop_last());
        match ops.last() {
            RegistryOp::Add(a, t) => before.insert(a.key_spec(), t),
            RegistryOp::Remove(a) => before.remove(a.key_spec()),
        }
    }
}

/// Whether, in `ops`, the address with key `k` was added and not removed since.
pub open spec fn added_last<T>(ops: Seq<RegistryOp<T>>, k: u64) -> bool {
    exists|i: int|
        0 <= i < ops.len() && (#[trigger] ops[i]) is Add && op_addr(ops[i]).key_spec() == k
            && forall|j: int| i < j < ops.len() ==> op_addr(#[trigger] ops[j]).key_spec() != k
}

/// For every sequence of additions and removals made to an empty registry, the
/// registered clients are exactly the addresses added and not removed since, and
/// the count is the number of those addresses: an address added twice counts once,
/// and removing an absent address changes nothing.
pub proof fn lemma_count_matches_membership<T>(ops: Seq<RegistryOp<T>>)
    ensures
        replay(Map::<u64, T>::empty(), ops).dom() == Set::new(|k: u64| added_last(ops, k)),
        replay(Map::<u64, T>::empty(), ops).len() == Set::new(|k: u64| added_last(ops, k)).len(),
    decreases ops.len(),
{
    let live = Set::new(|k: u64| added_last(ops, k));
    if ops.len() == 0 {
        assert(replay(Map::<u64, T>::empty(), ops).dom() =~= live);
    } else {
        let p = ops.drop_last();
        lemma_count_matches_membership(p);
        let n = ops.len() - 1;
        let last = ops.last();
        let kl = op_addr(last).key_spec();
        assert forall|k: u64| #[trigger] added_last(ops, k) == (if k == kl {
            last is Add
        } else {
            added_last(p, k)
        }) by {
            if added_last(ops, k) {
                let i = choose|i: int|
                    0 <= i < ops.len() && (#[trigger] ops[i]) is Add && op_addr(ops[i]).key_spec() == k
                        && forall|j: int| i < j < ops.len() ==> op_addr(#[trigger] ops[j]).key_spec() != k;
                if k == kl {
                    if i < n {
                        assert(op_addr(ops[n]).key_spec() != k);
                    }
                } else {
                    assert(i != n);
                    assert(p[i] == ops[i]);
                    assert forall|j: int| i < j < p.len() implies op_addr(#[trigger] p[j]).key_spec() != k by {
                        assert(p[j] == ops[j]);
                    }
                }
            }
            if k == kl && last is Add {
                assert(ops[n] is Add && op_addr(ops[n]).key_spec() == k);
            }
            if k != kl && added_last(p, k) {
                let i = choose|i: int|
                    0 <= i < p.len() && (#[trigger] p[i]) is Add && op_addr(p[i]).key_spec() == k
                        && forall|j: int| i < j < p.len() ==> op_addr(#[trigger] p[j]).key_spec() != k;
                assert(ops[i] == p[i]);
                assert forall|j: int| i < j < ops.len() implies op_addr(#[trigger] ops[j]).key_spec() != k by {
                    if j < n {
                        assert(p[j] == ops[j]);
                    }
                }
            }
        }
        assert(replay(Map::<u64, T>::empty(), ops).dom() =~= live);
    }
}

/// A broadcast to an empty registry, or of an empty frame, goes to nobody: it
/// counts no delivery and removes no client.
pub proof fn lemma_broadcast_to_nobody<T: Clone>(
    clients: Map<u64, T>,
    data: Seq<u8>,
    targets: Seq<(PeerAddr, T)>,
    outcomes: Seq<(PeerAddr, Delivery)>,
)
    requires
        targets_spec(data, targets, clients),
        clients.len() == 0 || data.len() == 0,
        outcomes.len() == targets.len(),
    ensures
        targets.len() == 0,
        delivered_count(outcomes) == 0,
        clients.remove_keys(disconnected_keys(outcomes)) == clients,
{
    assert(disconnected_keys(outcomes) =~= Set::<u64>::empty());
    assert(clients.remove_keys(disconnected_keys(outcomes)) =~= clients);
}

/// A client that did not receive the frame takes nothing away from the others:
/// leaving its result out of a broadcast's results leaves the count of clients
/// that received the frame as it is.
pub proof fn lemma_failed_client_isolated(outcomes: Seq<(PeerAddr, Delivery)>, j: int)
    requires
        0 <= j < outcomes.len(),
        outcomes[j].1 != Delivery::Delivered,
    ensures
        delivered_count(outcomes) == delivered_count(outcomes.remove(j)),
    decreases outcomes.len(),
{
    let n = outcomes.len() - 1;
    if j == n {
        assert(outcomes.remove(j) =~= outcomes.drop_last());
    } else {
        lemma_failed_client_isolated(outcomes.drop_last(), j);
        assert(outcomes.remove(j).drop_last() =~= outcomes.drop_last().remove(j));
        assert(outcomes.remove(j).last() == outcomes.last());
    }
}

} // verus!
