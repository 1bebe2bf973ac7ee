//! The engine abstraction and its shared drive loop.
//!
//! A policy engine is a stage that inspects each transmit-path RPC message
//! and either forwards it downstream (possibly transformed) or answers it
//! upstream with a terminal event, and that forwards or consumes each
//! receive-path event.  The queue-draining frame around that decision is the
//! same for every stage, so it is written — and verified — once, generically
//! over the `Policy` trait: one step consumes at most one input message and
//! accounts for it exactly, so no call is silently swallowed and none is
//! answered twice.

use vstd::multiset::Multiset;
use vstd::prelude::*;

use crate::buffer::BufferPool;
use crate::graph::ChannelStore;
use crate::graph::DataPathNode;
use crate::graph::node_in_store;
use crate::message::EngineRxMessage;
use crate::message::EngineTxMessage;
use crate::message::RpcId;
use crate::message::RpcMessageTx;
use crate::message::rx_event_ids;
use crate::message::rx_id_seq;
use crate::message::rx_msg_id;
use crate::message::lemma_rx_event_ids_push;
use crate::message::lemma_tx_rpc_ids_push;
use crate::message::tx_id_seq;
use crate::message::tx_msg_id;
use crate::message::tx_rpc_ids;
use crate::queue::TryRecvError;

verus! {

/// The engine's self-reported count of work done in its last tick, read by
/// the scheduler to adapt its polling.  Advisory, not a correctness
/// mechanism.
pub struct Indicator {
    nwork: usize,
}

impl Indicator {
    pub closed spec fn view(&self) -> usize {
        self.nwork
    }

    pub fn new() -> (r: Indicator)
        ensures
            r@ == 0,
    {
        Indicator { nwork: 0 }
    }

    pub fn set_nwork(&mut self, nwork: usize)
        ensures
            final(self)@ == nwork,
    {
        self.nwork = nwork;
    }

    pub fn nwork(&self) -> (n: usize)
        ensures
            n == self@,
    {
        self.nwork
    }
}

/// Datapath failure: an adjacent queue was dropped, so the engine must wind
/// down.
#[derive(Clone, Copy, PartialEq, Eq, Structural, Debug)]
pub enum DatapathError {
    Disconnected,
}

/// What one drive step reports to the caller.
#[derive(Clone, Copy, PartialEq, Eq, Structural, Debug)]
pub enum Status {
    /// How many messages were processed (zero means: nothing to do, or an
    /// output lacks room).
    Progress(usize),
    /// An adjacent queue was dropped; terminal for the engine.
    Disconnected,
}

/// A policy's decision on one transmit-path RPC message: exactly one of
/// forwarding it downstream or answering upstream with a terminal event.
pub enum TxVerdict {
    Forward(RpcMessageTx),
    Respond(EngineRxMessage),
}

/// A policy's decision on one receive-path event: forward it upstream, or
/// consume it (the event is settled inside this engine, e.g. a buffer slot
/// was reclaimed against an acknowledgment).
pub enum RxVerdict {
    Forward(EngineRxMessage),
    Consume,
}

/// A transmit verdict accounts for its input: whichever way it goes, it
/// carries the input's call id, exactly once.
pub open spec fn tx_verdict_accounted(input: RpcMessageTx, v: TxVerdict) -> bool {
    match v {
        TxVerdict::Forward(m) => m.meta.spec_rpc_id() == input.meta.spec_rpc_id(),
        TxVerdict::Respond(e) => rx_msg_id(e) == Some(input.meta.spec_rpc_id()),
    }
}

/// A forwarded receive-path event keeps the id of its input.
pub open spec fn rx_verdict_accounted(input: EngineRxMessage, v: RxVerdict) -> bool {
    match v {
        RxVerdict::Forward(e) => rx_msg_id(e) == rx_msg_id(input),
        RxVerdict::Consume => true,
    }
}

/// What a pipeline stage decides; the drive loop around it is shared.
pub trait Policy: Sized {
    /// The stage's internal invariant.
    spec fn inv(&self) -> bool;

    /// The stage's channel endpoints.  Deciding a message never rewires the
    /// stage.
    spec fn spec_node(&self) -> DataPathNode;

    /// The stage's exact decision on one transmit-path RPC message: how the
    /// verdict, the stage's new state and the payload pool relate to the
    /// inputs.  `process_tx` is bound to it, and the drive loop carries it
    /// up to every step entry point.
    spec fn tx_step_rel(
        pre: Self,
        pool0: BufferPool,
        msg: RpcMessageTx,
        post: Self,
        pool1: BufferPool,
        v: TxVerdict,
    ) -> bool;

    /// The stage's exact decision on one receive-path event.
    spec fn rx_step_rel(
        pre: Self,
        pool0: BufferPool,
        msg: EngineRxMessage,
        post: Self,
        pool1: BufferPool,
        v: RxVerdict,
    ) -> bool;

    /// Decides one transmit-path RPC message.  The verdict must account for
    /// the message's call id, satisfy the stage's decision relation, and the
    /// stage must not grow or shrink the payload pool.
    fn process_tx(&mut self, pool: &mut BufferPool, msg: RpcMessageTx) -> (v: TxVerdict)
        requires
            old(self).inv(),
        ensures
            final(self).inv(),
            final(self).spec_node() == old(self).spec_node(),
            tx_verdict_accounted(msg, v),
            final(pool)@.len() == old(pool)@.len(),
            Self::tx_step_rel(*old(self), *old(pool), msg, *final(self), *final(pool), v),
    ;

    /// Decides one receive-path event.  A forwarded event keeps its id, the
    /// decision satisfies the stage's relation, and the stage must not grow
    /// or shrink the payload pool.
    fn process_rx(&mut self, pool: &mut BufferPool, msg: EngineRxMessage) -> (v: RxVerdict)
        requires
            old(self).inv(),
        ensures
            final(self).inv(),
            final(self).spec_node() == old(self).spec_node(),
            rx_verdict_accounted(msg, v),
            final(pool)@.len() == old(pool)@.len(),
            Self::rx_step_rel(*old(self), *old(pool), msg, *final(self), *final(pool), v),
    ;
}

/// Shorthand for the four queue indices of a fully wired node.
pub open spec fn n_ti(n: DataPathNode) -> int {
    n.tx_in->Some_0 as int
}

pub open spec fn n_to(n: DataPathNode) -> int {
    n.tx_out->Some_0 as int
}

pub open spec fn n_ri(n: DataPathNode) -> int {
    n.rx_in->Some_0 as int
}

pub open spec fn n_ro(n: DataPathNode) -> int {
    n.rx_out->Some_0 as int
}

/// A step touches only the node's own queues, preserves every queue's
/// capacity and disconnect flag, and never drops a queued message of any
/// other engine.
pub open spec fn store_frame(s0: ChannelStore, s1: ChannelStore, n: DataPathNode) -> bool {
    &&& s1.tx_queues().len() == s0.tx_queues().len()
    &&& s1.rx_queues().len() == s0.rx_queues().len()
    &&& forall|j: int|
        0 <= j < s0.tx_queues().len() && j != n_ti(n) && j != n_to(n)
            ==> s1.tx_queues()[j] == s0.tx_queues()[j]
    &&& forall|j: int|
        0 <= j < s0.rx_queues().len() && j != n_ri(n) && j != n_ro(n)
            ==> s1.rx_queues()[j] == s0.rx_queues()[j]
    &&& forall|j: int|
        0 <= j < s0.tx_queues().len() ==> (#[trigger] s1.tx_queues()[j]).spec_capacity()
            == s0.tx_queues()[j].spec_capacity() && s1.tx_queues()[j].is_closed()
            == s0.tx_queues()[j].is_closed()
    &&& forall|j: int|
        0 <= j < s0.rx_queues().len() ==> (#[trigger] s1.rx_queues()[j]).spec_capacity()
            == s0.rx_queues()[j].spec_capacity() && s1.rx_queues()[j].is_closed()
            == s0.rx_queues()[j].is_closed()
}

/// The outputs account for one consumed transmit-path message: an RPC
/// message puts exactly one event carrying its id on exactly one output
/// queue; any other message is forwarded downstream unchanged.
pub open spec fn tx_outputs_account(
    s0: ChannelStore,
    s1: ChannelStore,
    n: DataPathNode,
    consumed: EngineTxMessage,
) -> bool {
    match tx_msg_id(consumed) {
        Some(id) => {
            ||| (exists|m: EngineTxMessage|
                #[trigger] tx_msg_id(m) == Some(id) && s1.tx_queues()[n_to(n)]@ == s0.tx_queues()[
                    n_to(n)
                ]@.push(m) && s1.rx_queues()[n_ro(n)] == s0.rx_queues()[n_ro(n)])
            ||| (exists|e: EngineRxMessage|
                #[trigger] rx_msg_id(e) == Some(id) && s1.rx_queues()[n_ro(n)]@ == s0.rx_queues()[
                    n_ro(n)
                ]@.push(e) && s1.tx_queues()[n_to(n)] == s0.tx_queues()[n_to(n)])
        },
        None => s1.tx_queues()[n_to(n)]@ == s0.tx_queues()[n_to(n)]@.push(consumed)
            && s1.rx_queues()[n_ro(n)] == s0.rx_queues()[n_ro(n)],
    }
}

/// One transmit-path message was consumed and accounted for; the
/// receive-path input is untouched.
pub open spec fn tx_consumed_one(s0: ChannelStore, s1: ChannelStore, n: DataPathNode) -> bool {
    &&& s0.tx_queues()[n_ti(n)]@.len() > 0
    &&& s1.tx_queues()[n_ti(n)]@ == s0.tx_queues()[n_ti(n)]@.drop_first()
    &&& s1.rx_queues()[n_ri(n)] == s0.rx_queues()[n_ri(n)]
    &&& tx_outputs_account(s0, s1, n, s0.tx_queues()[n_ti(n)]@[0])
}

/// One receive-path event was consumed: forwarded upstream with its id
/// kept, or consumed inside the stage.  The transmit path is untouched.
pub open spec fn rx_consumed_one(s0: ChannelStore, s1: ChannelStore, n: DataPathNode) -> bool {
    &&& s0.rx_queues()[n_ri(n)]@.len() > 0
    &&& s1.rx_queues()[n_ri(n)]@ == s0.rx_queues()[n_ri(n)]@.drop_first()
    &&& s1.tx_queues()[n_ti(n)] == s0.tx_queues()[n_ti(n)]
    &&& s1.tx_queues()[n_to(n)] == s0.tx_queues()[n_to(n)]
    &&& {
        ||| (exists|e: EngineRxMessage|
            #[trigger] rx_msg_id(e) == rx_msg_id(s0.rx_queues()[n_ri(n)]@[0]) && s1.rx_queues()[
                n_ro(n)
            ]@ == s0.rx_queues()[n_ro(n)]@.push(e))
        ||| s1.rx_queues()[n_ro(n)] == s0.rx_queues()[n_ro(n)]
    }
}

/// The consumed transmit-path message was decided by the stage's own exact
/// relation: an RPC message went through `tx_step_rel` and the chosen
/// verdict is what landed on the outputs; any other message was forwarded
/// downstream unchanged, with the stage and pool untouched.
pub open spec fn tx_step_decided<P: Policy>(
    p0: P,
    p1: P,
    pool0: BufferPool,
    pool1: BufferPool,
    s0: ChannelStore,
    s1: ChannelStore,
    n: DataPathNode,
) -> bool {
    match txin_view(s0, n)[0] {
        EngineTxMessage::RpcMessage(m) => exists|v: TxVerdict|
            {
                &&& #[trigger] P::tx_step_rel(p0, pool0, m, p1, pool1, v)
                &&& match v {
                    TxVerdict::Forward(m2) => s1.tx_queues()[n_to(n)]@ == s0.tx_queues()[
                        n_to(n)
                    ]@.push(EngineTxMessage::RpcMessage(m2)) && s1.rx_queues()[n_ro(n)]
                        == s0.rx_queues()[n_ro(n)],
                    TxVerdict::Respond(e) => s1.rx_queues()[n_ro(n)]@ == s0.rx_queues()[
                        n_ro(n)
                    ]@.push(e) && s1.tx_queues()[n_to(n)] == s0.tx_queues()[n_to(n)],
                }
            },
        _ => {
            &&& s1.tx_queues()[n_to(n)]@ == s0.tx_queues()[n_to(n)]@.push(txin_view(s0, n)[0])
            &&& s1.rx_queues()[n_ro(n)] == s0.rx_queues()[n_ro(n)]
            &&& p1 == p0
            &&& pool1 == pool0
        },
    }
}

/// The consumed receive-path event was decided by the stage's own exact
/// relation, and the chosen verdict is what landed on the upstream output.
pub open spec fn rx_step_decided<P: Policy>(
    p0: P,
    p1: P,
    pool0: BufferPool,
    pool1: BufferPool,
    s0: ChannelStore,
    s1: ChannelStore,
    n: DataPathNode,
) -> bool {
    exists|v: RxVerdict|
        {
            &&& #[trigger] P::rx_step_rel(p0, pool0, rxin_view(s0, n)[0], p1, pool1, v)
            &&& match v {
                RxVerdict::Forward(e) => s1.rx_queues()[n_ro(n)]@ == s0.rx_queues()[
                    n_ro(n)
                ]@.push(e),
                RxVerdict::Consume => s1.rx_queues()[n_ro(n)] == s0.rx_queues()[n_ro(n)],
            }
        }
}

/// A queue adjacent to the node is dropped: the engine must wind down.
pub open spec fn node_disconnected(s: ChannelStore, n: DataPathNode) -> bool {
    ||| s.tx_queues()[n_to(n)].is_closed()
    ||| s.rx_queues()[n_ro(n)].is_closed()
    ||| (s.tx_queues()[n_ti(n)]@.len() == 0 && s.tx_queues()[n_ti(n)].is_closed())
    ||| (s.rx_queues()[n_ri(n)]@.len() == 0 && s.rx_queues()[n_ri(n)].is_closed())
}

/// The node's own queues are exactly as they were; with `store_frame` this
/// says the whole store is observably unchanged.
pub open spec fn node_queues_unchanged(s0: ChannelStore, s1: ChannelStore, n: DataPathNode) -> bool {
    &&& s1.tx_queues()[n_ti(n)] == s0.tx_queues()[n_ti(n)]
    &&& s1.tx_queues()[n_to(n)] == s0.tx_queues()[n_to(n)]
    &&& s1.rx_queues()[n_ri(n)] == s0.rx_queues()[n_ri(n)]
    &&& s1.rx_queues()[n_ro(n)] == s0.rx_queues()[n_ro(n)]
}

/// Both output queues have room for one more message.
pub open spec fn outputs_have_room(s: ChannelStore, n: DataPathNode) -> bool {
    &&& s.tx_queues()[n_to(n)]@.len() < s.tx_queues()[n_to(n)].spec_capacity()
    &&& s.rx_queues()[n_ro(n)]@.len() < s.rx_queues()[n_ro(n)].spec_capacity()
}

/// Outcome of one one-sided step.
#[derive(Clone, Copy, PartialEq, Eq, Structural, Debug)]
pub enum StepOutcome {
    Consumed,
    Empty,
    Disconnected,
}

/// Drives one transmit-path step: receives at most one message from the
/// node's transmit input and lets the policy decide it.
pub fn tx_step<P: Policy>(
    p: &mut P,
    pool: &mut BufferPool,
    store: &mut ChannelStore,
    node: DataPathNode,
) -> (st: StepOutcome)
    requires
        old(p).inv(),
        node == old(p).spec_node(),
        old(store).wf(),
        node_in_store(node, *old(store)),
        outputs_have_room(*old(store), node),
    ensures
        final(p).inv(),
        final(p).spec_node() == old(p).spec_node(),
        final(store).wf(),
        node_in_store(node, *final(store)),
        final(pool)@.len() == old(pool)@.len(),
        store_frame(*old(store), *final(store), node),
        match st {
            StepOutcome::Consumed => tx_consumed_one(*old(store), *final(store), node)
                && tx_step_decided::<P>(
                *old(p),
                *final(p),
                *old(pool),
                *final(pool),
                *old(store),
                *final(store),
                node,
            ) && !old(store).tx_queues()[n_to(node)].is_closed() && !old(store).rx_queues()[
                n_ro(node)
            ].is_closed(),
            StepOutcome::Empty => {
                &&& node_queues_unchanged(*old(store), *final(store), node)
                &&& *final(p) == *old(p)
                &&& *final(pool) == *old(pool)
                &&& old(store).tx_queues()[n_ti(node)]@.len() == 0
                &&& !old(store).tx_queues()[n_ti(node)].is_closed()
            },
            StepOutcome::Disconnected => {
                &&& node_queues_unchanged(*old(store), *final(store), node)
                &&& *final(p) == *old(p)
                &&& *final(pool) == *old(pool)
                &&& node_disconnected(*old(store), node)
            },
        },
{
    let ti = match node.tx_in {
        Some(i) => i,
        None => {
            proof {
                assert(false);
            }
            0
        },
    };
    let to = match node.tx_out {
        Some(i) => i,
        None => {
            proof {
                assert(false);
            }
            0
        },
    };
    let ro = match node.rx_out {
        Some(i) => i,
        None => {
            proof {
                assert(false);
            }
            0
        },
    };
    if store.tx_queue(to).closed() || store.rx_queue(ro).closed() {
        return StepOutcome::Disconnected;
    }
    let received = store.tx_queue_mut(ti).try_receive();
    match received {
        Err(TryRecvError::Empty) => StepOutcome::Empty,
        Err(TryRecvError::Disconnected) => StepOutcome::Disconnected,
        Ok(msg) => {
            match msg {
                EngineTxMessage::RpcMessage(m) => {
                    let verdict = p.process_tx(pool, m);
                    let ghost vg = verdict;
                    match verdict {
                        TxVerdict::Forward(m2) => {
                            let sent = store.tx_queue_mut(to).try_send(
                                EngineTxMessage::RpcMessage(m2),
                            );
                            proof {
                                assert(sent is Ok);
                                let w = EngineTxMessage::RpcMessage(m2);
                                assert(tx_msg_id(w) == Some(m.meta.spec_rpc_id()));
                                assert(store.tx_queues()[to as int]@ == old(store).tx_queues()[
                                    to as int
                                ]@.push(w));
                                assert(P::tx_step_rel(*old(p), *old(pool), m, *p, *pool, vg));
                            }
                        },
                        TxVerdict::Respond(e) => {
                            let ghost eg = e;
                            let sent = store.rx_queue_mut(ro).try_send(e);
                            proof {
                                assert(sent is Ok);
                                assert(rx_msg_id(eg) == Some(m.meta.spec_rpc_id()));
                                assert(store.rx_queues()[ro as int]@ == old(store).rx_queues()[
                                    ro as int
                                ]@.push(eg));
                                assert(P::tx_step_rel(*old(p), *old(pool), m, *p, *pool, vg));
                            }
                        },
                    }
                },
                other => {
                    let sent = store.tx_queue_mut(to).try_send(other);
                    proof {
                        assert(sent is Ok);
                    }
                },
            }
            StepOutcome::Consumed
        },
    }
}

/// Drives one receive-path step: receives at most one event from the node's
/// receive input and lets the policy decide it.
pub fn rx_step<P: Policy>(
    p: &mut P,
    pool: &mut BufferPool,
    store: &mut ChannelStore,
    node: DataPathNode,
) -> (st: StepOutcome)
    requires
        old(p).inv(),
        node == old(p).spec_node(),
        old(store).wf(),
        node_in_store(node, *old(store)),
        old(store).rx_queues()[n_ro(node)]@.len() < old(store).rx_queues()[
            n_ro(node)
        ].spec_capacity(),
    ensures
        final(p).inv(),
        final(p).spec_node() == old(p).spec_node(),
        final(store).wf(),
        node_in_store(node, *final(store)),
        final(pool)@.len() == old(pool)@.len(),
        store_frame(*old(store), *final(store), node),
        match st {
            StepOutcome::Consumed => rx_consumed_one(*old(store), *final(store), node)
                && rx_step_decided::<P>(
                *old(p),
                *final(p),
                *old(pool),
                *final(pool),
                *old(store),
                *final(store),
                node,
            ),
            StepOutcome::Empty => {
                &&& node_queues_unchanged(*old(store), *final(store), node)
                &&& *final(p) == *old(p)
                &&& *final(pool) == *old(pool)
                &&& old(store).rx_queues()[n_ri(node)]@.len() == 0
                &&& !old(store).rx_queues()[n_ri(node)].is_closed()
            },
            StepOutcome::Disconnected => {
                &&& node_queues_unchanged(*old(store), *final(store), node)
                &&& *final(p) == *old(p)
                &&& *final(pool) == *old(pool)
                &&& node_disconnected(*old(store), node)
            },
        },
{
    let ri = match node.rx_in {
        Some(i) => i,
        None => {
            proof {
                assert(false);
            }
            0
        },
    };
    let ro = match node.rx_out {
        Some(i) => i,
        None => {
            proof {
                assert(false);
            }
            0
        },
    };
    if store.rx_queue(ro).closed() {
        return StepOutcome::Disconnected;
    }
    let received = store.rx_queue_mut(ri).try_receive();
    match received {
        Err(TryRecvError::Empty) => StepOutcome::Empty,
        Err(TryRecvError::Disconnected) => StepOutcome::Disconnected,
        Ok(msg) => {
            let ghost consumed = msg;
            let verdict = p.process_rx(pool, msg);
            let ghost vg = verdict;
            match verdict {
                RxVerdict::Forward(e) => {
                    let ghost eg = e;
                    let sent = store.rx_queue_mut(ro).try_send(e);
                    proof {
                        assert(sent is Ok);
                        assert(rx_msg_id(eg) == rx_msg_id(consumed));
                        assert(store.rx_queues()[ro as int]@ == old(store).rx_queues()[
                            ro as int
                        ]@.push(eg));
                        assert(consumed == rxin_view(*old(store), node)[0]);
                        assert(P::rx_step_rel(
                            *old(p),
                            *old(pool),
                            rxin_view(*old(store), node)[0],
                            *p,
                            *pool,
                            vg,
                        ));
                    }
                },
                RxVerdict::Consume => {
                    proof {
                        assert(consumed == rxin_view(*old(store), node)[0]);
                        assert(P::rx_step_rel(
                            *old(p),
                            *old(pool),
                            rxin_view(*old(store), node)[0],
                            *p,
                            *pool,
                            vg,
                        ));
                    }
                },
            }
            StepOutcome::Consumed
        },
    }
}

/// Drives one step of the steady-state loop: the transmit input first, then
/// the receive input, consuming at most one message, with backpressure when
/// an output lacks room.
pub fn check_input_queue<P: Policy>(
    p: &mut P,
    pool: &mut BufferPool,
    store: &mut ChannelStore,
    node: DataPathNode,
) -> (st: Status)
    requires
        old(p).inv(),
        node == old(p).spec_node(),
        old(store).wf(),
        node_in_store(node, *old(store)),
    ensures
        step_post::<P>(*old(p), *final(p), *old(pool), *final(pool), *old(store), *final(store), st),
{
    let to = match node.tx_out {
        Some(i) => i,
        None => {
            proof {
                assert(false);
            }
            0
        },
    };
    let ro = match node.rx_out {
        Some(i) => i,
        None => {
            proof {
                assert(false);
            }
            0
        },
    };
    if store.tx_queue(to).len() == store.tx_queue(to).capacity() || store.rx_queue(ro).len()
        == store.rx_queue(ro).capacity() {
        return Status::Progress(0);
    }
    match tx_step(p, pool, store, node) {
        StepOutcome::Consumed => Status::Progress(1),
        StepOutcome::Disconnected => Status::Disconnected,
        StepOutcome::Empty => {
            let ghost s_mid = *store;
            match rx_step(p, pool, store, node) {
                StepOutcome::Consumed => {
                    proof {
                        assert(rxin_view(s_mid, node) == rxin_view(*old(store), node));
                        assert(rx_consumed_one(*old(store), *store, node));
                        let v = choose|v: RxVerdict|
                            {
                                &&& #[trigger] P::rx_step_rel(
                                    *old(p),
                                    *old(pool),
                                    rxin_view(s_mid, node)[0],
                                    *p,
                                    *pool,
                                    v,
                                )
                                &&& match v {
                                    RxVerdict::Forward(e) => store.rx_queues()[n_ro(node)]@
                                        == s_mid.rx_queues()[n_ro(node)]@.push(e),
                                    RxVerdict::Consume => store.rx_queues()[n_ro(node)]
                                        == s_mid.rx_queues()[n_ro(node)],
                                }
                            };
                        assert(P::rx_step_rel(
                            *old(p),
                            *old(pool),
                            rxin_view(*old(store), node)[0],
                            *p,
                            *pool,
                            v,
                        ));
                        assert(rx_step_decided::<P>(
                            *old(p),
                            *p,
                            *old(pool),
                            *pool,
                            *old(store),
                            *store,
                            node,
                        ));
                    }
                    Status::Progress(1)
                },
                StepOutcome::Disconnected => Status::Disconnected,
                StepOutcome::Empty => Status::Progress(0),
            }
        },
    }
}

/// The transmit-path messages this engine still has queued at its input.
pub open spec fn txin_view(s: ChannelStore, n: DataPathNode) -> Seq<EngineTxMessage> {
    s.tx_queues()[n_ti(n)]@
}

/// The receive-path events this engine still has queued at its input.
pub open spec fn rxin_view(s: ChannelStore, n: DataPathNode) -> Seq<EngineRxMessage> {
    s.rx_queues()[n_ri(n)]@
}

/// What this engine appended to its downstream output between two states.
pub open spec fn txout_appended(s0: ChannelStore, s1: ChannelStore, n: DataPathNode) -> Seq<
    EngineTxMessage,
> {
    s1.tx_queues()[n_to(n)]@.skip(s0.tx_queues()[n_to(n)]@.len() as int)
}

/// What this engine appended to its upstream output between two states.
pub open spec fn rxout_appended(s0: ChannelStore, s1: ChannelStore, n: DataPathNode) -> Seq<
    EngineRxMessage,
> {
    s1.rx_queues()[n_ro(n)]@.skip(s0.rx_queues()[n_ro(n)]@.len() as int)
}

/// The full contract of one steady-state step: the transmit input is tried
/// first, then the receive input.  Zero progress means backpressure or both
/// inputs empty, with everything exactly unchanged; one unit of progress
/// means exactly one input message was consumed and decided by the stage's
/// own relation; disconnection means an adjacent queue is gone and nothing
/// changed.  Nothing outside the stage's own queues is ever touched.
pub open spec fn step_post<P: Policy>(
    p0: P,
    p1: P,
    pool0: BufferPool,
    pool1: BufferPool,
    s0: ChannelStore,
    s1: ChannelStore,
    st: Status,
) -> bool {
    let n = p0.spec_node();
    &&& p1.inv()
    &&& p1.spec_node() == p0.spec_node()
    &&& s1.wf()
    &&& node_in_store(n, s1)
    &&& pool1@.len() == pool0@.len()
    &&& store_frame(s0, s1, n)
    &&& match st {
        Status::Progress(k) => {
            if k == 0 {
                &&& node_queues_unchanged(s0, s1, n)
                &&& p1 == p0
                &&& pool1 == pool0
                &&& {
                    ||| !outputs_have_room(s0, n)
                    ||| (txin_view(s0, n).len() == 0 && rxin_view(s0, n).len() == 0)
                }
            } else {
                &&& k == 1
                &&& {
                    ||| (tx_consumed_one(s0, s1, n) && tx_step_decided::<P>(
                        p0,
                        p1,
                        pool0,
                        pool1,
                        s0,
                        s1,
                        n,
                    ))
                    ||| (rx_consumed_one(s0, s1, n) && rx_step_decided::<P>(
                        p0,
                        p1,
                        pool0,
                        pool1,
                        s0,
                        s1,
                        n,
                    ) && txin_view(s0, n).len() == 0)
                }
            }
        },
        Status::Disconnected => {
            &&& node_queues_unchanged(s0, s1, n)
            &&& p1 == p0
            &&& pool1 == pool0
            &&& node_disconnected(s0, n)
        },
    }
}

/// The conservation law of the transmit path: over a drained prefix of `c`
/// input messages, the multiset of call ids consumed equals the multiset of
/// call ids emitted across the two outputs — every RPC message produces
/// exactly one event, none is swallowed and none is answered twice.
pub open spec fn tx_ids_conserved(s0: ChannelStore, s1: ChannelStore, n: DataPathNode, c: int) -> bool {
    tx_rpc_ids(txin_view(s0, n).subrange(0, c)).to_multiset() == tx_rpc_ids(
        txout_appended(s0, s1, n),
    ).to_multiset().add(rx_event_ids(rxout_appended(s0, s1, n)).to_multiset())
}

proof fn lemma_empty_ids_multiset(s: Seq<RpcId>)
    requires
        s.len() == 0,
    ensures
        s.to_multiset() == Multiset::<RpcId>::empty(),
{
    broadcast use vstd::seq_lib::group_to_multiset_ensures;

    assert(s.to_multiset() =~= Multiset::<RpcId>::empty());
}

/// Drains this engine's transmit-path input to empty, one message at a
/// time, under the policy's decisions.  The call-id conservation law holds
/// over whatever prefix was consumed, whether the drain completes or stops
/// on a dropped queue.
pub fn drain_tx<P: Policy>(
    p: &mut P,
    pool: &mut BufferPool,
    store: &mut ChannelStore,
    node: DataPathNode,
) -> (r: Result<usize, DatapathError>)
    requires
        old(p).inv(),
        node == old(p).spec_node(),
        old(store).wf(),
        node_in_store(node, *old(store)),
        old(store).tx_queues()[n_to(node)].spec_capacity() - old(store).tx_queues()[
            n_to(node)
        ]@.len() >= txin_view(*old(store), node).len(),
        old(store).rx_queues()[n_ro(node)].spec_capacity() - old(store).rx_queues()[
            n_ro(node)
        ]@.len() >= txin_view(*old(store), node).len(),
    ensures
        final(p).inv(),
        final(p).spec_node() == old(p).spec_node(),
        final(store).wf(),
        node_in_store(node, *final(store)),
        final(pool)@.len() == old(pool)@.len(),
        store_frame(*old(store), *final(store), node),
        final(store).rx_queues()[n_ri(node)] == old(store).rx_queues()[n_ri(node)],
        old(store).tx_queues()[n_to(node)]@.len() <= final(store).tx_queues()[n_to(node)]@.len(),
        old(store).rx_queues()[n_ro(node)]@.len() <= final(store).rx_queues()[n_ro(node)]@.len(),
        ({
            let txin0 = txin_view(*old(store), node);
            let txin1 = txin_view(*final(store), node);
            let c = txin0.len() - txin1.len();
            &&& 0 <= c <= txin0.len()
            &&& txin1 == txin0.skip(c)
            &&& txout_appended(*old(store), *final(store), node).len() + rxout_appended(
                *old(store),
                *final(store),
                node,
            ).len() == c
            &&& tx_ids_conserved(*old(store), *final(store), node, c)
            &&& (r matches Ok(count) ==> txin1.len() == 0 && count == c)
            &&& (r is Err ==> node_disconnected(*final(store), node))
        }),
{
    let ti = match node.tx_in {
        Some(i) => i,
        None => {
            proof {
                assert(false);
            }
            0
        },
    };
    let mut count: usize = 0;
    proof {
        assert(txin_view(*old(store), node).subrange(0, 0) =~= Seq::<EngineTxMessage>::empty());
        lemma_empty_ids_multiset(tx_rpc_ids(txin_view(*old(store), node).subrange(0, 0)));
        assert(txout_appended(*old(store), *store, node) =~= Seq::<EngineTxMessage>::empty());
        assert(rxout_appended(*old(store), *store, node) =~= Seq::<EngineRxMessage>::empty());
        lemma_empty_ids_multiset(tx_rpc_ids(txout_appended(*old(store), *store, node)));
        lemma_empty_ids_multiset(rx_event_ids(rxout_appended(*old(store), *store, node)));
        assert(tx_ids_conserved(*old(store), *store, node, 0)) by {
            assert(tx_rpc_ids(txin_view(*old(store), node).subrange(0, 0)).to_multiset()
                =~= Multiset::<RpcId>::empty().add(Multiset::<RpcId>::empty()));
        };
    }
    loop
        invariant
            p.inv(),
            p.spec_node() == old(p).spec_node(),
            node == p.spec_node(),
            store.wf(),
            node_in_store(node, *store),
            pool@.len() == old(pool)@.len(),
            ti == n_ti(node),
            store_frame(*old(store), *store, node),
            store.rx_queues()[n_ri(node)] == old(store).rx_queues()[n_ri(node)],
            count <= txin_view(*old(store), node).len(),
            txin_view(*old(store), node).len() <= old(store).tx_queues()[
                n_ti(node)
            ].spec_capacity(),
            txin_view(*store, node) == txin_view(*old(store), node).skip(count as int),
            old(store).tx_queues()[n_to(node)]@.len() <= store.tx_queues()[n_to(node)]@.len(),
            old(store).rx_queues()[n_ro(node)]@.len() <= store.rx_queues()[n_ro(node)]@.len(),
            txout_appended(*old(store), *store, node).len() + rxout_appended(
                *old(store),
                *store,
                node,
            ).len() == count,
            tx_ids_conserved(*old(store), *store, node, count as int),
            store.tx_queues()[n_to(node)].spec_capacity() - store.tx_queues()[n_to(node)]@.len()
                >= txin_view(*store, node).len(),
            store.rx_queues()[n_ro(node)].spec_capacity() - store.rx_queues()[n_ro(node)]@.len()
                >= txin_view(*store, node).len(),
        decreases txin_view(*store, node).len(),
    {
        if store.tx_queue(ti).is_empty() {
            return Ok(count);
        }
        let ghost s_pre = *store;
        let st = tx_step(p, pool, store, node);
        match st {
            StepOutcome::Consumed => {
                proof {
                    lemma_drain_tx_extend(*old(store), s_pre, *store, node, count as int);
                }
                count = count + 1;
            },
            StepOutcome::Empty => {
                return Ok(count);
            },
            StepOutcome::Disconnected => {
                return Err(DatapathError::Disconnected);
            },
        }
    }
}

/// One accounted step extends the conservation law from a prefix of `c`
/// messages to `c + 1`.
proof fn lemma_drain_tx_extend(
    s0: ChannelStore,
    s_pre: ChannelStore,
    s_post: ChannelStore,
    n: DataPathNode,
    c: int,
)
    requires
        0 <= c,
        c + 1 <= txin_view(s0, n).len(),
        txin_view(s_pre, n) == txin_view(s0, n).skip(c),
        txin_view(s_pre, n).len() > 0,
        s0.tx_queues().len() == s_pre.tx_queues().len(),
        s0.rx_queues().len() == s_pre.rx_queues().len(),
        s0.tx_queues()[n_to(n)]@.len() <= s_pre.tx_queues()[n_to(n)]@.len(),
        s0.rx_queues()[n_ro(n)]@.len() <= s_pre.rx_queues()[n_ro(n)]@.len(),
        txout_appended(s0, s_pre, n).len() + rxout_appended(s0, s_pre, n).len() == c,
        tx_ids_conserved(s0, s_pre, n, c),
        tx_consumed_one(s_pre, s_post, n),
    ensures
        txin_view(s_post, n) == txin_view(s0, n).skip(c + 1),
        txout_appended(s0, s_post, n).len() + rxout_appended(s0, s_post, n).len() == c + 1,
        tx_ids_conserved(s0, s_post, n, c + 1),
{
    broadcast use vstd::seq_lib::group_to_multiset_ensures;

    let txin0 = txin_view(s0, n);
    let consumed = txin_view(s_pre, n)[0];
    assert(consumed == txin0[c]);
    assert(txin_view(s_post, n) =~= txin0.skip(c + 1));

    // the consumed prefix grows by the consumed message
    let prefix = txin0.subrange(0, c);
    let prefix1 = txin0.subrange(0, c + 1);
    assert(prefix1 =~= prefix.push(consumed));
    lemma_tx_rpc_ids_push(prefix, consumed);
    vstd::seq_lib::lemma_multiset_commutative(tx_rpc_ids(prefix), tx_id_seq(consumed));

    let fwd_pre = txout_appended(s0, s_pre, n);
    let resp_pre = rxout_appended(s0, s_pre, n);
    let lt = s0.tx_queues()[n_to(n)]@.len() as int;
    let lr = s0.rx_queues()[n_ro(n)]@.len() as int;

    match tx_msg_id(consumed) {
        Some(id) => {
            if exists|m: EngineTxMessage|
                #[trigger] tx_msg_id(m) == Some(id) && s_post.tx_queues()[n_to(n)]@
                    == s_pre.tx_queues()[n_to(n)]@.push(m) && s_post.rx_queues()[n_ro(n)]
                    == s_pre.rx_queues()[n_ro(n)] {
                let m = choose|m: EngineTxMessage|
                    #[trigger] tx_msg_id(m) == Some(id) && s_post.tx_queues()[n_to(n)]@
                        == s_pre.tx_queues()[n_to(n)]@.push(m) && s_post.rx_queues()[n_ro(n)]
                        == s_pre.rx_queues()[n_ro(n)];
                assert(txout_appended(s0, s_post, n) =~= fwd_pre.push(m));
                lemma_tx_rpc_ids_push(fwd_pre, m);
                vstd::seq_lib::lemma_multiset_commutative(tx_rpc_ids(fwd_pre), tx_id_seq(m));
                assert(tx_id_seq(m) =~= seq![id]);
                assert(tx_id_seq(consumed) =~= seq![id]);
                assert(tx_rpc_ids(prefix1).to_multiset() =~= tx_rpc_ids(
                    txout_appended(s0, s_post, n),
                ).to_multiset().add(rx_event_ids(rxout_appended(s0, s_post, n)).to_multiset()));
            } else {
                let e = choose|e: EngineRxMessage|
                    #[trigger] rx_msg_id(e) == Some(id) && s_post.rx_queues()[n_ro(n)]@
                        == s_pre.rx_queues()[n_ro(n)]@.push(e) && s_post.tx_queues()[n_to(n)]
                        == s_pre.tx_queues()[n_to(n)];
                assert(rxout_appended(s0, s_post, n) =~= resp_pre.push(e));
                lemma_rx_event_ids_push(resp_pre, e);
                vstd::seq_lib::lemma_multiset_commutative(rx_event_ids(resp_pre), rx_id_seq(e));
                assert(rx_id_seq(e) =~= seq![id]);
                assert(tx_id_seq(consumed) =~= seq![id]);
                assert(tx_rpc_ids(prefix1).to_multiset() =~= tx_rpc_ids(
                    txout_appended(s0, s_post, n),
                ).to_multiset().add(rx_event_ids(rxout_appended(s0, s_post, n)).to_multiset()));
            }
        },
        None => {
            assert(txout_appended(s0, s_post, n) =~= fwd_pre.push(consumed));
            lemma_tx_rpc_ids_push(fwd_pre, consumed);
            vstd::seq_lib::lemma_multiset_commutative(tx_rpc_ids(fwd_pre), tx_id_seq(consumed));
            assert(tx_id_seq(consumed) =~= Seq::<RpcId>::empty());
            lemma_empty_ids_multiset(tx_id_seq(consumed));
            assert(tx_rpc_ids(prefix1).to_multiset() =~= tx_rpc_ids(
                txout_appended(s0, s_post, n),
            ).to_multiset().add(rx_event_ids(rxout_appended(s0, s_post, n)).to_multiset()));
        },
    }
}

/// Drains this engine's receive-path input to empty.  Every event the
/// engine forwards upstream keeps its call id, and no event is invented:
/// the forwarded ids are a sub-multiset of the consumed ones (an engine may
/// settle an event internally, e.g. reclaim a buffer slot against an
/// acknowledgment, but never duplicates one).
pub fn drain_rx<P: Policy>(
    p: &mut P,
    pool: &mut BufferPool,
    store: &mut ChannelStore,
    node: DataPathNode,
) -> (r: Result<usize, DatapathError>)
    requires
        old(p).inv(),
        node == old(p).spec_node(),
        old(store).wf(),
        node_in_store(node, *old(store)),
        old(store).rx_queues()[n_ro(node)].spec_capacity() - old(store).rx_queues()[
            n_ro(node)
        ]@.len() >= rxin_view(*old(store), node).len(),
    ensures
        final(p).inv(),
        final(p).spec_node() == old(p).spec_node(),
        final(store).wf(),
        node_in_store(node, *final(store)),
        final(pool)@.len() == old(pool)@.len(),
        store_frame(*old(store), *final(store), node),
        final(store).tx_queues()[n_ti(node)] == old(store).tx_queues()[n_ti(node)],
        final(store).tx_queues()[n_to(node)] == old(store).tx_queues()[n_to(node)],
        old(store).rx_queues()[n_ro(node)]@.len() <= final(store).rx_queues()[n_ro(node)]@.len(),
        final(store).rx_queues()[n_ro(node)]@.subrange(
            0,
            old(store).rx_queues()[n_ro(node)]@.len() as int,
        ) == old(store).rx_queues()[n_ro(node)]@,
        ({
            let rxin0 = rxin_view(*old(store), node);
            let rxin1 = rxin_view(*final(store), node);
            let c = rxin0.len() - rxin1.len();
            &&& 0 <= c <= rxin0.len()
            &&& rxin1 == rxin0.skip(c)
            &&& rxout_appended(*old(store), *final(store), node).len() <= c
            &&& rx_event_ids(rxout_appended(*old(store), *final(store), node)).to_multiset()
                .subset_of(rx_event_ids(rxin0.subrange(0, c)).to_multiset())
            &&& (r matches Ok(count) ==> rxin1.len() == 0 && count == c)
            &&& (r is Err ==> node_disconnected(*final(store), node))
        }),
{
    let ri = match node.rx_in {
        Some(i) => i,
        None => {
            proof {
                assert(false);
            }
            0
        },
    };
    let mut count: usize = 0;
    proof {
        broadcast use vstd::multiset::group_multiset_axioms;

        assert(rxin_view(*old(store), node).subrange(0, 0) =~= Seq::<EngineRxMessage>::empty());
        assert(rxout_appended(*old(store), *store, node) =~= Seq::<EngineRxMessage>::empty());
        lemma_empty_ids_multiset(rx_event_ids(rxout_appended(*old(store), *store, node)));
    }
    loop
        invariant
            p.inv(),
            p.spec_node() == old(p).spec_node(),
            node == p.spec_node(),
            store.wf(),
            node_in_store(node, *store),
            pool@.len() == old(pool)@.len(),
            ri == n_ri(node),
            store_frame(*old(store), *store, node),
            store.tx_queues()[n_ti(node)] == old(store).tx_queues()[n_ti(node)],
            store.tx_queues()[n_to(node)] == old(store).tx_queues()[n_to(node)],
            count <= rxin_view(*old(store), node).len(),
            rxin_view(*old(store), node).len() <= old(store).rx_queues()[
                n_ri(node)
            ].spec_capacity(),
            rxin_view(*store, node) == rxin_view(*old(store), node).skip(count as int),
            old(store).rx_queues()[n_ro(node)]@.len() <= store.rx_queues()[n_ro(node)]@.len(),
            store.rx_queues()[n_ro(node)]@.subrange(
                0,
                old(store).rx_queues()[n_ro(node)]@.len() as int,
            ) == old(store).rx_queues()[n_ro(node)]@,
            rxout_appended(*old(store), *store, node).len() <= count,
            rx_event_ids(rxout_appended(*old(store), *store, node)).to_multiset().subset_of(
                rx_event_ids(rxin_view(*old(store), node).subrange(0, count as int)).to_multiset(),
            ),
            store.rx_queues()[n_ro(node)].spec_capacity() - store.rx_queues()[n_ro(node)]@.len()
                >= rxin_view(*store, node).len(),
        decreases rxin_view(*store, node).len(),
    {
        if store.rx_queue(ri).is_empty() {
            return Ok(count);
        }
        let ghost s_pre = *store;
        let st = rx_step(p, pool, store, node);
        match st {
            StepOutcome::Consumed => {
                proof {
                    lemma_drain_rx_extend(*old(store), s_pre, *store, node, count as int);
                }
                count = count + 1;
            },
            StepOutcome::Empty => {
                return Ok(count);
            },
            StepOutcome::Disconnected => {
                return Err(DatapathError::Disconnected);
            },
        }
    }
}

/// One accounted receive-path step keeps the forwarded ids inside the
/// consumed ids.
proof fn lemma_drain_rx_extend(
    s0: ChannelStore,
    s_pre: ChannelStore,
    s_post: ChannelStore,
    n: DataPathNode,
    c: int,
)
    requires
        0 <= c,
        c + 1 <= rxin_view(s0, n).len(),
        rxin_view(s_pre, n) == rxin_view(s0, n).skip(c),
        rxin_view(s_pre, n).len() > 0,
        s0.rx_queues().len() == s_pre.rx_queues().len(),
        s0.rx_queues()[n_ro(n)]@.len() <= s_pre.rx_queues()[n_ro(n)]@.len(),
        rxout_appended(s0, s_pre, n).len() <= c,
        rx_event_ids(rxout_appended(s0, s_pre, n)).to_multiset().subset_of(
            rx_event_ids(rxin_view(s0, n).subrange(0, c)).to_multiset(),
        ),
        rx_consumed_one(s_pre, s_post, n),
    ensures
        rxin_view(s_post, n) == rxin_view(s0, n).skip(c + 1),
        rxout_appended(s0, s_post, n).len() <= c + 1,
        rx_event_ids(rxout_appended(s0, s_post, n)).to_multiset().subset_of(
            rx_event_ids(rxin_view(s0, n).subrange(0, c + 1)).to_multiset(),
        ),
{
    broadcast use vstd::seq_lib::group_to_multiset_ensures;
    broadcast use vstd::multiset::group_multiset_axioms;

    let rxin0 = rxin_view(s0, n);
    let consumed = rxin_view(s_pre, n)[0];
    assert(consumed == rxin0[c]);
    assert(rxin_view(s_post, n) =~= rxin0.skip(c + 1));

    let prefix = rxin0.subrange(0, c);
    let prefix1 = rxin0.subrange(0, c + 1);
    assert(prefix1 =~= prefix.push(consumed));
    lemma_rx_event_ids_push(prefix, consumed);
    vstd::seq_lib::lemma_multiset_commutative(rx_event_ids(prefix), rx_id_seq(consumed));

    let resp_pre = rxout_appended(s0, s_pre, n);
    if s_post.rx_queues()[n_ro(n)] == s_pre.rx_queues()[n_ro(n)] {
        assert(rxout_appended(s0, s_post, n) =~= resp_pre);
    } else {
        let e = choose|e: EngineRxMessage|
            #[trigger] rx_msg_id(e) == rx_msg_id(consumed) && s_post.rx_queues()[n_ro(n)]@
                == s_pre.rx_queues()[n_ro(n)]@.push(e);
        assert(rxout_appended(s0, s_post, n) =~= resp_pre.push(e));
        lemma_rx_event_ids_push(resp_pre, e);
        vstd::seq_lib::lemma_multiset_commutative(rx_event_ids(resp_pre), rx_id_seq(e));
        assert(rx_id_seq(e) =~= rx_id_seq(consumed));
    }
}

/// Synchronously drains both input queues until they are empty, returning
/// how many messages were processed: the live-upgrade guarantee that no
/// message is stranded mid-pipeline.  Calling it when both queues are
/// already empty processes zero messages and changes nothing.
pub fn flush<P: Policy>(
    p: &mut P,
    pool: &mut BufferPool,
    store: &mut ChannelStore,
    node: DataPathNode,
) -> (r: Result<usize, DatapathError>)
    requires
        old(p).inv(),
        node == old(p).spec_node(),
        old(store).wf(),
        node_in_store(node, *old(store)),
        old(store).tx_queues()[n_to(node)].spec_capacity() - old(store).tx_queues()[
            n_to(node)
        ]@.len() >= txin_view(*old(store), node).len(),
        old(store).rx_queues()[n_ro(node)].spec_capacity() - old(store).rx_queues()[
            n_ro(node)
        ]@.len() >= txin_view(*old(store), node).len() + rxin_view(*old(store), node).len(),
    ensures
        final(p).inv(),
        final(p).spec_node() == old(p).spec_node(),
        final(store).wf(),
        node_in_store(node, *final(store)),
        final(pool)@.len() == old(pool)@.len(),
        store_frame(*old(store), *final(store), node),
        // flush is idempotent: on empty inputs it reports zero work and
        // leaves the engine, the pool and every queue untouched
        (txin_view(*old(store), node).len() == 0 && rxin_view(*old(store), node).len() == 0)
            ==> r == Ok::<usize, DatapathError>(0) && node_queues_unchanged(
            *old(store),
            *final(store),
            node,
        ) && *final(p) == *old(p) && *final(pool) == *old(pool),
        // on success both inputs are drained and every message is counted
        (r matches Ok(count) ==> txin_view(*final(store), node).len() == 0 && rxin_view(
            *final(store),
            node,
        ).len() == 0 && count == txin_view(*old(store), node).len() + rxin_view(
            *old(store),
            node,
        ).len()),
        // failure is owed a reason: an adjacent queue was dropped
        r is Err ==> node_disconnected(*final(store), node),
        // the conservation law over the whole drained run: the ids of every
        // transmit message consumed equal the ids emitted downstream plus
        // the first segment of upstream events (the transmit drain's
        // answers); the rest of the upstream appendage comes from forwarded
        // receive events, never invented
        (r is Ok ==> exists|mid: int|
            #![trigger final(store).rx_queues()[n_ro(node)]@.subrange(old(store).rx_queues()[n_ro(node)]@.len() as int, mid)]
            {
                &&& old(store).rx_queues()[n_ro(node)]@.len() <= mid <= final(store).rx_queues()[
                    n_ro(node)
                ]@.len()
                &&& tx_rpc_ids(txin_view(*old(store), node)).to_multiset() == tx_rpc_ids(
                    txout_appended(*old(store), *final(store), node),
                ).to_multiset().add(
                    rx_event_ids(
                        final(store).rx_queues()[n_ro(node)]@.subrange(
                            old(store).rx_queues()[n_ro(node)]@.len() as int,
                            mid,
                        ),
                    ).to_multiset(),
                )
                &&& rx_event_ids(
                    final(store).rx_queues()[n_ro(node)]@.subrange(
                        mid,
                        final(store).rx_queues()[n_ro(node)]@.len() as int,
                    ),
                ).to_multiset().subset_of(
                    rx_event_ids(rxin_view(*old(store), node)).to_multiset(),
                )
            }),
{
    let ti = match node.tx_in {
        Some(i) => i,
        None => {
            proof {
                assert(false);
            }
            0
        },
    };
    let ri = match node.rx_in {
        Some(i) => i,
        None => {
            proof {
                assert(false);
            }
            0
        },
    };
    if store.tx_queue(ti).is_empty() && store.rx_queue(ri).is_empty() {
        proof {
            broadcast use vstd::multiset::group_multiset_axioms;

            let lo = old(store).rx_queues()[n_ro(node)]@.len() as int;
            assert(txin_view(*old(store), node) =~= Seq::<EngineTxMessage>::empty());
            assert(txout_appended(*old(store), *store, node) =~= Seq::<EngineTxMessage>::empty());
            assert(store.rx_queues()[n_ro(node)]@.subrange(lo, lo) =~= Seq::<
                EngineRxMessage,
            >::empty());
            lemma_empty_ids_multiset(tx_rpc_ids(txin_view(*old(store), node)));
            lemma_empty_ids_multiset(tx_rpc_ids(txout_appended(*old(store), *store, node)));
            lemma_empty_ids_multiset(
                rx_event_ids(store.rx_queues()[n_ro(node)]@.subrange(lo, lo)),
            );
        }
        return Ok(0);
    }
    let worked_tx = match drain_tx(p, pool, store, node) {
        Ok(n) => n,
        Err(e) => {
            return Err(e);
        },
    };
    let ghost s_mid = *store;
    let worked_rx = match drain_rx(p, pool, store, node) {
        Ok(n) => n,
        Err(e) => {
            return Err(e);
        },
    };
    proof {
        broadcast use vstd::multiset::group_multiset_axioms;

        let lo = old(store).rx_queues()[n_ro(node)]@.len() as int;
        let mid = s_mid.rx_queues()[n_ro(node)]@.len() as int;
        let hi = store.rx_queues()[n_ro(node)]@.len() as int;
        assert(lo <= mid <= hi);
        // the receive drain only appends: its ensures pin the prefix
        assert(store.rx_queues()[n_ro(node)]@.subrange(0, mid) == s_mid.rx_queues()[n_ro(node)]@);
        assert(forall|j: int|
            0 <= j < mid ==> store.rx_queues()[n_ro(node)]@[j] == s_mid.rx_queues()[
                n_ro(node)
            ]@[j]) by {
            assert(forall|j: int|
                0 <= j < mid ==> store.rx_queues()[n_ro(node)]@.subrange(0, mid)[j]
                    == store.rx_queues()[n_ro(node)]@[j]);
        }
        // the upstream output decomposes into the transmit drain's answers
        // and the receive drain's forwards
        assert(store.rx_queues()[n_ro(node)]@.subrange(lo, mid) =~= rxout_appended(
            *old(store),
            s_mid,
            node,
        ));
        assert(store.rx_queues()[n_ro(node)]@.subrange(mid, hi) =~= rxout_appended(
            s_mid,
            *store,
            node,
        ));
        // the receive drain leaves the downstream output alone
        assert(txout_appended(*old(store), *store, node) =~= txout_appended(
            *old(store),
            s_mid,
            node,
        ));
        // the drains covered the whole inputs
        assert(txin_view(*old(store), node).subrange(
            0,
            txin_view(*old(store), node).len() as int,
        ) =~= txin_view(*old(store), node));
        assert(rxin_view(s_mid, node).subrange(0, rxin_view(s_mid, node).len() as int)
            =~= rxin_view(s_mid, node));
        assert(rxin_view(s_mid, node) == rxin_view(*old(store), node));
    }
    Ok(worked_tx + worked_rx)
}

/// What driving a stage needs: its invariant, a well-formed store, and a
/// node wired inside it.
pub open spec fn tick_pre<P: Policy>(p: P, s: ChannelStore) -> bool {
    &&& p.inv()
    &&& s.wf()
    &&& node_in_store(p.spec_node(), s)
}

/// What every drive entry point guarantees: the stage's invariant and node
/// are intact, the store is well-formed, and nothing outside the stage's own
/// queues was touched.
pub open spec fn tick_post<P: Policy>(p0: P, p1: P, s0: ChannelStore, s1: ChannelStore) -> bool {
    &&& p1.inv()
    &&& p1.spec_node() == p0.spec_node()
    &&& s1.wf()
    &&& node_in_store(p1.spec_node(), s1)
    &&& store_frame(s0, s1, p0.spec_node())
}

/// What a flush needs beyond `tick_pre`: the output queues can absorb the
/// worst case (each queued transmit message may go either way; receive
/// events go upstream).  This is what makes the no-stranded-message
/// guarantee provable over bounded queues: the upgrade runtime must flush a
/// chain downstream-first, so each stage's outputs have been drained before
/// the stage itself is flushed.
pub open spec fn flush_pre<P: Policy>(p: P, s: ChannelStore) -> bool {
    &&& tick_pre(p, s)
    &&& s.tx_queues()[n_to(p.spec_node())].spec_capacity() - s.tx_queues()[
        n_to(p.spec_node())
    ]@.len() >= txin_view(s, p.spec_node()).len()
    &&& s.rx_queues()[n_ro(p.spec_node())].spec_capacity() - s.rx_queues()[
        n_ro(p.spec_node())
    ]@.len() >= txin_view(s, p.spec_node()).len() + rxin_view(s, p.spec_node()).len()
}

/// What a flush guarantees: `tick_post`, idempotence on empty inputs (zero
/// work, nothing changed), and — on success — both inputs drained with every
/// message counted.
pub open spec fn flush_post<P: Policy>(
    p0: P,
    p1: P,
    s0: ChannelStore,
    s1: ChannelStore,
    r: Result<usize, DatapathError>,
) -> bool {
    let n = p0.spec_node();
    &&& tick_post(p0, p1, s0, s1)
    &&& ((txin_view(s0, n).len() == 0 && rxin_view(s0, n).len() == 0) ==> r == Ok::<
        usize,
        DatapathError,
    >(0) && node_queues_unchanged(s0, s1, n) && p1 == p0)
    &&& (r matches Ok(count) ==> txin_view(s1, n).len() == 0 && rxin_view(s1, n).len() == 0
        && count == txin_view(s0, n).len() + rxin_view(s0, n).len())
    &&& (r is Err ==> node_disconnected(s1, n))
    &&& (r is Ok ==> exists|mid: int|
        #![trigger s1.rx_queues()[n_ro(n)]@.subrange(s0.rx_queues()[n_ro(n)]@.len() as int, mid)]
        {
            &&& s0.rx_queues()[n_ro(n)]@.len() <= mid <= s1.rx_queues()[n_ro(n)]@.len()
            &&& tx_rpc_ids(txin_view(s0, n)).to_multiset() == tx_rpc_ids(
                txout_appended(s0, s1, n),
            ).to_multiset().add(
                rx_event_ids(
                    s1.rx_queues()[n_ro(n)]@.subrange(s0.rx_queues()[n_ro(n)]@.len() as int, mid),
                ).to_multiset(),
            )
            &&& rx_event_ids(
                s1.rx_queues()[n_ro(n)]@.subrange(mid, s1.rx_queues()[n_ro(n)]@.len() as int),
            ).to_multiset().subset_of(rx_event_ids(rxin_view(s0, n)).to_multiset())
        })
}

/// What one cooperative tick guarantees: `tick_post`, and the reason the
/// tick ended — either the stage yielded with no local progress left (both
/// inputs drained, or an output lacks room), or an adjacent queue was
/// dropped and the engine must wind down.
pub open spec fn activate_post<P: Policy>(
    p0: P,
    p1: P,
    pool0: BufferPool,
    pool1: BufferPool,
    s0: ChannelStore,
    s1: ChannelStore,
    st: Status,
) -> bool {
    let n = p0.spec_node();
    &&& tick_post(p0, p1, s0, s1)
    &&& pool1@.len() == pool0@.len()
    &&& match st {
        Status::Progress(w) => {
            ||| !outputs_have_room(s1, n)
            ||| (txin_view(s1, n).len() == 0 && rxin_view(s1, n).len() == 0)
        },
        Status::Disconnected => node_disconnected(s1, n),
    }
}

/// The per-call corollary of the conservation law: a call id that enters
/// the transmit path exactly once leaves it exactly once — as a forwarded
/// RPC message or as a terminal event back upstream — never twice and never
/// zero times.
pub proof fn lemma_each_call_terminates_once(
    inputs: Seq<EngineTxMessage>,
    fwd: Seq<EngineTxMessage>,
    resp: Seq<EngineRxMessage>,
    id: RpcId,
)
    requires
        tx_rpc_ids(inputs).to_multiset() == tx_rpc_ids(fwd).to_multiset().add(
            rx_event_ids(resp).to_multiset(),
        ),
        tx_rpc_ids(inputs).to_multiset().count(id) == 1,
    ensures
        tx_rpc_ids(fwd).to_multiset().count(id) + rx_event_ids(resp).to_multiset().count(id) == 1,
{
    broadcast use vstd::multiset::group_multiset_axioms;

}

/// One cooperative tick: services both input queues until no engine-local
/// progress remains (or an output lacks room), records the work done in the
/// indicator, and yields.  `Disconnected` means an adjacent queue was
/// dropped and the engine must wind down.
pub fn activate<P: Policy>(
    p: &mut P,
    pool: &mut BufferPool,
    store: &mut ChannelStore,
    node: DataPathNode,
) -> (st: Status)
    requires
        old(p).inv(),
        node == old(p).spec_node(),
        old(store).wf(),
        node_in_store(node, *old(store)),
    ensures
        activate_post::<P>(*old(p), *final(p), *old(pool), *final(pool), *old(store), *final(store), st),
{
    let mut work: usize = 0;
    loop
        invariant
            p.inv(),
            p.spec_node() == old(p).spec_node(),
            node == p.spec_node(),
            store.wf(),
            node_in_store(node, *store),
            pool@.len() == old(pool)@.len(),
            store_frame(*old(store), *store, node),
        decreases txin_view(*store, node).len() + rxin_view(*store, node).len(),
    {
        let st = check_input_queue(p, pool, store, node);
        match st {
            Status::Progress(n) => {
                if n == 0 {
                    return Status::Progress(work);
                }
                if work < usize::MAX {
                    work = work + n;
                }
            },
            Status::Disconnected => {
                return Status::Disconnected;
            },
        }
    }
}

} // verus!
