//! The dataflow graph's channel storage and an engine's view of it.
//!
//! All queues of one service instance live in one `ChannelStore`; a
//! `DataPathNode` is an engine's indexed access to its inbound and outbound
//! queues on the transmit and receive paths.  Wiring assigns the indices
//! once, at service instantiation, and the node never changes afterwards.

use vstd::prelude::*;

use crate::message::EngineRxMessage;
use crate::message::EngineTxMessage;
use crate::queue::Queue;

verus! {

/// An engine's channel endpoints: indices into the owning `ChannelStore`.
/// `None` means the engine has no queue in that position (a chain-end
/// engine talks to an external collaborator on that side).
#[derive(Clone, Copy, PartialEq, Eq, Structural, Debug)]
pub struct DataPathNode {
    pub tx_in: Option<usize>,
    pub tx_out: Option<usize>,
    pub rx_in: Option<usize>,
    pub rx_out: Option<usize>,
}

impl DataPathNode {
    /// A node with no endpoints assigned yet.
    pub fn unwired() -> (n: DataPathNode)
        ensures
            n == (DataPathNode { tx_in: None, tx_out: None, rx_in: None, rx_out: None }),
    {
        DataPathNode { tx_in: None, tx_out: None, rx_in: None, rx_out: None }
    }
}

/// Whether a node has all four endpoints, as a mid-chain engine must.
pub open spec fn node_fully_wired(n: DataPathNode) -> bool {
    &&& n.tx_in is Some
    &&& n.tx_out is Some
    &&& n.rx_in is Some
    &&& n.rx_out is Some
}

/// All queues of one service instance: the transmit-path queues and the
/// receive-path queues, indexed by the positions the nodes carry.
pub struct ChannelStore {
    tx: Vec<Queue<EngineTxMessage>>,
    rx: Vec<Queue<EngineRxMessage>>,
}

impl ChannelStore {
    pub closed spec fn tx_queues(&self) -> Seq<Queue<EngineTxMessage>> {
        self.tx@
    }

    pub closed spec fn rx_queues(&self) -> Seq<Queue<EngineRxMessage>> {
        self.rx@
    }

    /// Every queue respects its capacity.
    pub open spec fn wf(&self) -> bool {
        &&& forall|i: int| 0 <= i < self.tx_queues().len() ==> (#[trigger] self.tx_queues()[i]).wf()
        &&& forall|i: int| 0 <= i < self.rx_queues().len() ==> (#[trigger] self.rx_queues()[i]).wf()
    }

    pub fn new() -> (s: ChannelStore)
        ensures
            s.tx_queues() == Seq::<Queue<EngineTxMessage>>::empty(),
            s.rx_queues() == Seq::<Queue<EngineRxMessage>>::empty(),
            s.wf(),
    {
        ChannelStore { tx: Vec::new(), rx: Vec::new() }
    }

    /// Adds one transmit-path queue and returns its index.
    pub fn add_tx_queue(&mut self, capacity: usize) -> (i: usize)
        requires
            old(self).wf(),
        ensures
            i == old(self).tx_queues().len(),
            final(self).tx_queues().len() == old(self).tx_queues().len() + 1,
            forall|j: int|
                0 <= j < old(self).tx_queues().len() ==> final(self).tx_queues()[j] == old(
                    self,
                ).tx_queues()[j],
            final(self).tx_queues()[i as int]@ == Seq::<EngineTxMessage>::empty(),
            final(self).tx_queues()[i as int].spec_capacity() == capacity,
            !final(self).tx_queues()[i as int].is_closed(),
            final(self).rx_queues() == old(self).rx_queues(),
            final(self).wf(),
    {
        let i = self.tx.len();
        self.tx.push(Queue::with_capacity(capacity));
        i
    }

    /// Adds one receive-path queue and returns its index.
    pub fn add_rx_queue(&mut self, capacity: usize) -> (i: usize)
        requires
            old(self).wf(),
        ensures
            i == old(self).rx_queues().len(),
            final(self).rx_queues().len() == old(self).rx_queues().len() + 1,
            forall|j: int|
                0 <= j < old(self).rx_queues().len() ==> final(self).rx_queues()[j] == old(
                    self,
                ).rx_queues()[j],
            final(self).rx_queues()[i as int]@ == Seq::<EngineRxMessage>::empty(),
            final(self).rx_queues()[i as int].spec_capacity() == capacity,
            !final(self).rx_queues()[i as int].is_closed(),
            final(self).tx_queues() == old(self).tx_queues(),
            final(self).wf(),
    {
        let i = self.rx.len();
        self.rx.push(Queue::with_capacity(capacity));
        i
    }

    /// Mutable access to one transmit-path queue.
    pub fn tx_queue_mut(&mut self, i: usize) -> (q: &mut Queue<EngineTxMessage>)
        requires
            i < old(self).tx_queues().len(),
        ensures
            *q == old(self).tx_queues()[i as int],
            final(self).tx_queues() == old(self).tx_queues().update(i as int, *final(q)),
            final(self).rx_queues() == old(self).rx_queues(),
    {
        &mut self.tx[i]
    }

    /// Mutable access to one receive-path queue.
    pub fn rx_queue_mut(&mut self, i: usize) -> (q: &mut Queue<EngineRxMessage>)
        requires
            i < old(self).rx_queues().len(),
        ensures
            *q == old(self).rx_queues()[i as int],
            final(self).rx_queues() == old(self).rx_queues().update(i as int, *final(q)),
            final(self).tx_queues() == old(self).tx_queues(),
    {
        &mut self.rx[i]
    }

    /// Read access to one transmit-path queue.
    pub fn tx_queue(&self, i: usize) -> (q: &Queue<EngineTxMessage>)
        requires
            i < self.tx_queues().len(),
        ensures
            *q == self.tx_queues()[i as int],
    {
        &self.tx[i]
    }

    /// Read access to one receive-path queue.
    pub fn rx_queue(&self, i: usize) -> (q: &Queue<EngineRxMessage>)
        requires
            i < self.rx_queues().len(),
        ensures
            *q == self.rx_queues()[i as int],
    {
        &self.rx[i]
    }
}

/// Two descriptors of one direction that cannot both be realized: a
/// descriptor looping an engine onto itself, or two descriptors claiming
/// the same source or the same destination endpoint.
pub open spec fn spec_channel_conflict(desc: Seq<(usize, usize)>) -> bool {
    ||| exists|k: int| 0 <= k < desc.len() && (#[trigger] desc[k]).0 == desc[k].1
    ||| exists|k1: int, k2: int|
        0 <= k1 < k2 < desc.len() && ((#[trigger] desc[k1]).0 == (#[trigger] desc[k2]).0
            || desc[k1].1 == desc[k2].1)
}

/// Creates every queue a service's channel descriptors declare and wires
/// both endpoints of each: descriptor `k` of a direction becomes queue `k`
/// of that direction, attached as the source engine's output and the
/// destination engine's input.  No queue is left with only one endpoint.
/// A descriptor that loops an engine onto itself, or two descriptors
/// claiming the same endpoint, fail the instantiation.
pub fn instantiate_channels(
    n_engines: usize,
    tx_desc: &Vec<(usize, usize)>,
    rx_desc: &Vec<(usize, usize)>,
    capacity: usize,
) -> (r: Result<(ChannelStore, Vec<DataPathNode>), crate::registry::GraphError>)
    requires
        forall|k: int|
            0 <= k < tx_desc@.len() ==> (#[trigger] tx_desc@[k]).0 < n_engines && tx_desc@[k].1
                < n_engines,
        forall|k: int|
            0 <= k < rx_desc@.len() ==> (#[trigger] rx_desc@[k]).0 < n_engines && rx_desc@[k].1
                < n_engines,
    ensures
        match r {
            Ok((store, nodes)) => {
                &&& nodes@.len() == n_engines
                &&& store.wf()
                &&& store.tx_queues().len() == tx_desc@.len()
                &&& store.rx_queues().len() == rx_desc@.len()
                &&& forall|i: int|
                    0 <= i < tx_desc@.len() ==> (#[trigger] store.tx_queues()[i])@.len() == 0
                        && !store.tx_queues()[i].is_closed() && store.tx_queues()[
                        i
                    ].spec_capacity() == capacity
                &&& forall|i: int|
                    0 <= i < rx_desc@.len() ==> (#[trigger] store.rx_queues()[i])@.len() == 0
                        && !store.rx_queues()[i].is_closed() && store.rx_queues()[
                        i
                    ].spec_capacity() == capacity
                &&& forall|k: int|
                    0 <= k < tx_desc@.len() ==> nodes@[(#[trigger] tx_desc@[k]).0 as int].tx_out
                        == Some(k as usize) && nodes@[tx_desc@[k].1 as int].tx_in == Some(
                        k as usize,
                    )
                &&& forall|k: int|
                    0 <= k < rx_desc@.len() ==> nodes@[(#[trigger] rx_desc@[k]).0 as int].rx_out
                        == Some(k as usize) && nodes@[rx_desc@[k].1 as int].rx_in == Some(
                        k as usize,
                    )
            },
            Err(e) => e == crate::registry::GraphError::PortConflict,
        },
        r is Ok <==> !spec_channel_conflict(tx_desc@) && !spec_channel_conflict(rx_desc@),
{
    let mut store = ChannelStore::new();
    let mut nodes: Vec<DataPathNode> = Vec::new();
    let mut i: usize = 0;
    while i < n_engines
        invariant
            i <= n_engines,
            nodes@.len() == i,
            forall|j: int|
                0 <= j < i ==> nodes@[j] == (DataPathNode {
                    tx_in: None,
                    tx_out: None,
                    rx_in: None,
                    rx_out: None,
                }),
        decreases n_engines - i,
    {
        nodes.push(DataPathNode::unwired());
        i = i + 1;
    }
    let mut k: usize = 0;
    let nt = tx_desc.len();
    while k < nt
        invariant
            k <= nt,
            nt == tx_desc@.len(),
            nodes@.len() == n_engines,
            store.wf(),
            store.tx_queues().len() == k,
            store.rx_queues().len() == 0,
            forall|k2: int|
                0 <= k2 < tx_desc@.len() ==> (#[trigger] tx_desc@[k2]).0 < n_engines
                    && tx_desc@[k2].1 < n_engines,
            forall|i2: int|
                0 <= i2 < k ==> (#[trigger] store.tx_queues()[i2])@.len() == 0
                    && !store.tx_queues()[i2].is_closed() && store.tx_queues()[
                    i2
                ].spec_capacity() == capacity,
            forall|j: int| 0 <= j < nodes@.len() ==> (#[trigger] nodes@[j]).rx_in is None
                && nodes@[j].rx_out is None,
            forall|k2: int|
                0 <= k2 < k ==> nodes@[(#[trigger] tx_desc@[k2]).0 as int].tx_out == Some(
                    k2 as usize,
                ) && nodes@[tx_desc@[k2].1 as int].tx_in == Some(k2 as usize),
            forall|j: int|
                0 <= j < nodes@.len() ==> match (#[trigger] nodes@[j]).tx_out {
                    Some(q) => q < k && tx_desc@[q as int].0 == j,
                    None => true,
                } && match nodes@[j].tx_in {
                    Some(q) => q < k && tx_desc@[q as int].1 == j,
                    None => true,
                },
            forall|k2: int| 0 <= k2 < k ==> (#[trigger] tx_desc@[k2]).0 != tx_desc@[k2].1,
            forall|k1: int, k2: int|
                0 <= k1 < k2 < k ==> (#[trigger] tx_desc@[k1]).0 != (#[trigger] tx_desc@[k2]).0
                    && tx_desc@[k1].1 != tx_desc@[k2].1,
            // the engines' tx endpoints reflect exactly the first k descriptors
            forall|k2: int|
                0 <= k2 < k ==> (#[trigger] nodes@[tx_desc@[k2].0 as int]).tx_out is Some
                    && nodes@[tx_desc@[k2].1 as int].tx_in is Some,
        decreases nt - k,
    {
        let (src, dst) = (tx_desc[k].0, tx_desc[k].1);
        if src == dst {
            return Err(crate::registry::GraphError::PortConflict);
        }
        if nodes[src].tx_out.is_some() || nodes[dst].tx_in.is_some() {
            proof {
                if nodes@[src as int].tx_out is Some {
                    let q = nodes@[src as int].tx_out->Some_0;
                    assert(tx_desc@[q as int].0 == src as int);
                    assert(0 <= (q as int) && (q as int) < (k as int) && (k as int) < tx_desc@.len());
                } else {
                    let q = nodes@[dst as int].tx_in->Some_0;
                    assert(tx_desc@[q as int].1 == dst as int);
                    assert(0 <= (q as int) && (q as int) < (k as int) && (k as int) < tx_desc@.len());
                }
                assert(spec_channel_conflict(tx_desc@));
            }
            return Err(crate::registry::GraphError::PortConflict);
        }
        let q = store.add_tx_queue(capacity);
        let src_node = nodes[src];
        nodes.set(src, DataPathNode { tx_out: Some(q), ..src_node });
        let dst_node = nodes[dst];
        nodes.set(dst, DataPathNode { tx_in: Some(q), ..dst_node });
        k = k + 1;
    }
    let mut k: usize = 0;
    let nr = rx_desc.len();
    while k < nr
        invariant
            k <= nr,
            nr == rx_desc@.len(),
            nodes@.len() == n_engines,
            store.wf(),
            store.tx_queues().len() == tx_desc@.len(),
            store.rx_queues().len() == k,
            forall|k2: int|
                0 <= k2 < rx_desc@.len() ==> (#[trigger] rx_desc@[k2]).0 < n_engines
                    && rx_desc@[k2].1 < n_engines,
            forall|k2: int|
                0 <= k2 < tx_desc@.len() ==> (#[trigger] tx_desc@[k2]).0 < n_engines
                    && tx_desc@[k2].1 < n_engines,
            forall|i2: int|
                0 <= i2 < tx_desc@.len() ==> (#[trigger] store.tx_queues()[i2])@.len() == 0
                    && !store.tx_queues()[i2].is_closed() && store.tx_queues()[
                    i2
                ].spec_capacity() == capacity,
            forall|i2: int|
                0 <= i2 < k ==> (#[trigger] store.rx_queues()[i2])@.len() == 0
                    && !store.rx_queues()[i2].is_closed() && store.rx_queues()[
                    i2
                ].spec_capacity() == capacity,
            forall|k2: int|
                0 <= k2 < tx_desc@.len() ==> nodes@[(#[trigger] tx_desc@[k2]).0 as int].tx_out
                    == Some(k2 as usize) && nodes@[tx_desc@[k2].1 as int].tx_in == Some(
                    k2 as usize,
                ),
            forall|k2: int|
                0 <= k2 < k ==> nodes@[(#[trigger] rx_desc@[k2]).0 as int].rx_out == Some(
                    k2 as usize,
                ) && nodes@[rx_desc@[k2].1 as int].rx_in == Some(k2 as usize),
            forall|j: int|
                0 <= j < nodes@.len() ==> match (#[trigger] nodes@[j]).rx_out {
                    Some(q) => q < k && rx_desc@[q as int].0 == j,
                    None => true,
                } && match nodes@[j].rx_in {
                    Some(q) => q < k && rx_desc@[q as int].1 == j,
                    None => true,
                },
            !spec_channel_conflict(tx_desc@),
            forall|k2: int| 0 <= k2 < k ==> (#[trigger] rx_desc@[k2]).0 != rx_desc@[k2].1,
            forall|k1: int, k2: int|
                0 <= k1 < k2 < k ==> (#[trigger] rx_desc@[k1]).0 != (#[trigger] rx_desc@[k2]).0
                    && rx_desc@[k1].1 != rx_desc@[k2].1,
        decreases nr - k,
    {
        let (src, dst) = (rx_desc[k].0, rx_desc[k].1);
        if src == dst {
            return Err(crate::registry::GraphError::PortConflict);
        }
        if nodes[src].rx_out.is_some() || nodes[dst].rx_in.is_some() {
            proof {
                if nodes@[src as int].rx_out is Some {
                    let q = nodes@[src as int].rx_out->Some_0;
                    assert(rx_desc@[q as int].0 == src as int);
                    assert(0 <= (q as int) && (q as int) < (k as int) && (k as int) < rx_desc@.len());
                } else {
                    let q = nodes@[dst as int].rx_in->Some_0;
                    assert(rx_desc@[q as int].1 == dst as int);
                    assert(0 <= (q as int) && (q as int) < (k as int) && (k as int) < rx_desc@.len());
                }
                assert(spec_channel_conflict(rx_desc@));
            }
            return Err(crate::registry::GraphError::PortConflict);
        }
        let q = store.add_rx_queue(capacity);
        let ghost nodes0 = nodes@;
        let src_node = nodes[src];
        nodes.set(src, DataPathNode { rx_out: Some(q), ..src_node });
        let dst_node = nodes[dst];
        nodes.set(dst, DataPathNode { rx_in: Some(q), ..dst_node });
        proof {
            assert forall|j: int|
                0 <= j < nodes@.len() implies (#[trigger] nodes@[j]).tx_out == nodes0[j].tx_out
                && nodes@[j].tx_in == nodes0[j].tx_in by {
                if j == src as int {
                } else if j == dst as int {
                }
            }
        }
        k = k + 1;
    }
    Ok((store, nodes))
}

/// Whether a fully wired node's endpoints lie inside the store and its two
/// directions use distinct queues, as wiring guarantees (no self-loops).
pub open spec fn node_in_store(n: DataPathNode, s: ChannelStore) -> bool {
    &&& node_fully_wired(n)
    &&& (n.tx_in->Some_0 as int) < s.tx_queues().len()
    &&& (n.tx_out->Some_0 as int) < s.tx_queues().len()
    &&& (n.rx_in->Some_0 as int) < s.rx_queues().len()
    &&& (n.rx_out->Some_0 as int) < s.rx_queues().len()
    &&& n.tx_in->Some_0 != n.tx_out->Some_0
    &&& n.rx_in->Some_0 != n.rx_out->Some_0
}

} // verus!
