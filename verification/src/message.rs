//! The message model: the tagged variants that flow on the transmit path
//! (client to network) and the receive path (network to client) between two
//! engines, and the identifiers that tie a call's messages together.

use vstd::prelude::*;

verus! {

/// Identifies one RPC call: the connection it travels on and the call number
/// within that connection.
#[derive(Clone, Copy, PartialEq, Eq, Structural, Debug, Hash)]
pub struct RpcId {
    pub conn_id: u64,
    pub call_id: u32,
}

impl RpcId {
    pub fn new(conn_id: u64, call_id: u32) -> (r: RpcId)
        ensures
            r == (RpcId { conn_id, call_id }),
    {
        RpcId { conn_id, call_id }
    }
}

/// Transport-level outcome reported for a call: success, or a nonzero
/// numeric error code.
#[derive(Clone, Copy, PartialEq, Eq, Structural, Debug)]
pub enum TransportStatus {
    Success,
    Error(u32),
}

/// The metadata record of one call, held in a meta-buffer slot and carried
/// with every RPC message.
#[derive(Clone, Copy, PartialEq, Eq, Structural, Debug)]
pub struct MessageMeta {
    pub conn_id: u64,
    pub call_id: u32,
    pub status: TransportStatus,
}

impl MessageMeta {
    pub open spec fn spec_rpc_id(self) -> RpcId {
        RpcId { conn_id: self.conn_id, call_id: self.call_id }
    }

    pub fn rpc_id(&self) -> (r: RpcId)
        ensures
            r == self.spec_rpc_id(),
    {
        RpcId { conn_id: self.conn_id, call_id: self.call_id }
    }
}

/// A stable reference to one payload slot of a buffer pool.  The generation
/// number makes handles single-use: releasing the slot bumps the generation,
/// so a stale handle no longer validates against the pool.
#[derive(Clone, Copy, PartialEq, Eq, Structural, Debug)]
pub struct BufHandle {
    pub index: usize,
    pub generation: u64,
}

/// A transmit-path RPC message: the call's metadata plus a handle to the
/// marshalled payload in the buffer pool.
#[derive(Clone, Copy, PartialEq, Eq, Structural, Debug)]
pub struct RpcMessageTx {
    pub meta: MessageMeta,
    pub payload: BufHandle,
}

/// A receive-path RPC message.
#[derive(Clone, Copy, PartialEq, Eq, Structural, Debug)]
pub struct RpcMessageRx {
    pub meta: MessageMeta,
    pub payload: BufHandle,
}

/// The variants flowing on a transmit-path queue.
#[derive(Debug)]
pub enum EngineTxMessage {
    RpcMessage(RpcMessageTx),
    /// A connection id and the call ids whose receive buffers may return to
    /// the pool.
    ReclaimRecvBuf(u64, Vec<u32>),
}

/// The variants flowing on a receive-path queue.
#[derive(Debug)]
pub enum EngineRxMessage {
    RpcMessage(RpcMessageRx),
    /// Completion of a call without a payload.
    Ack(RpcId, TransportStatus),
    /// A connection id and the error code of a failed receive.
    RecvError(u64, u32),
}

/// The call id named by a transmit-path message, if it names one.
pub open spec fn tx_msg_id(m: EngineTxMessage) -> Option<RpcId> {
    match m {
        EngineTxMessage::RpcMessage(msg) => Some(msg.meta.spec_rpc_id()),
        EngineTxMessage::ReclaimRecvBuf(_, _) => None,
    }
}

/// The call id named by a receive-path message, if it names one.
pub open spec fn rx_msg_id(m: EngineRxMessage) -> Option<RpcId> {
    match m {
        EngineRxMessage::RpcMessage(msg) => Some(msg.meta.spec_rpc_id()),
        EngineRxMessage::Ack(id, _) => Some(id),
        EngineRxMessage::RecvError(_, _) => None,
    }
}

/// The call ids of the RPC messages in a transmit-path sequence, in order.
pub open spec fn tx_rpc_ids(s: Seq<EngineTxMessage>) -> Seq<RpcId>
    decreases s.len(),
{
    if s.len() == 0 {
        Seq::empty()
    } else {
        match tx_msg_id(s[0]) {
            Some(id) => seq![id] + tx_rpc_ids(s.drop_first()),
            None => tx_rpc_ids(s.drop_first()),
        }
    }
}

/// The call ids of the call-terminating events in a receive-path sequence,
/// in order.
pub open spec fn rx_event_ids(s: Seq<EngineRxMessage>) -> Seq<RpcId>
    decreases s.len(),
{
    if s.len() == 0 {
        Seq::empty()
    } else {
        match rx_msg_id(s[0]) {
            Some(id) => seq![id] + rx_event_ids(s.drop_first()),
            None => rx_event_ids(s.drop_first()),
        }
    }
}

/// The ids contributed by one transmit-path message.
pub open spec fn tx_id_seq(m: EngineTxMessage) -> Seq<RpcId> {
    match tx_msg_id(m) {
        Some(id) => seq![id],
        None => Seq::empty(),
    }
}

/// The ids contributed by one receive-path message.
pub open spec fn rx_id_seq(m: EngineRxMessage) -> Seq<RpcId> {
    match rx_msg_id(m) {
        Some(id) => seq![id],
        None => Seq::empty(),
    }
}

/// Appending one message appends its ids.
pub proof fn lemma_tx_rpc_ids_push(s: Seq<EngineTxMessage>, x: EngineTxMessage)
    ensures
        tx_rpc_ids(s.push(x)) == tx_rpc_ids(s) + tx_id_seq(x),
    decreases s.len(),
{
    reveal_with_fuel(tx_rpc_ids, 3);
    if s.len() == 0 {
        assert(s.push(x)[0] == x);
        assert(s.push(x).drop_first() =~= Seq::<EngineTxMessage>::empty());
        assert(tx_rpc_ids(s.push(x)) =~= tx_rpc_ids(s) + tx_id_seq(x));
    } else {
        assert(s.push(x)[0] == s[0]);
        assert(s.push(x).drop_first() =~= s.drop_first().push(x));
        lemma_tx_rpc_ids_push(s.drop_first(), x);
        assert(tx_rpc_ids(s.push(x)) =~= tx_rpc_ids(s) + tx_id_seq(x));
    }
}

/// Appending one message appends its ids.
pub proof fn lemma_rx_event_ids_push(s: Seq<EngineRxMessage>, x: EngineRxMessage)
    ensures
        rx_event_ids(s.push(x)) == rx_event_ids(s) + rx_id_seq(x),
    decreases s.len(),
{
    reveal_with_fuel(rx_event_ids, 3);
    if s.len() == 0 {
        assert(s.push(x)[0] == x);
        assert(s.push(x).drop_first() =~= Seq::<EngineRxMessage>::empty());
        assert(rx_event_ids(s.push(x)) =~= rx_event_ids(s) + rx_id_seq(x));
    } else {
        assert(s.push(x)[0] == s[0]);
        assert(s.push(x).drop_first() =~= s.drop_first().push(x));
        lemma_rx_event_ids_push(s.drop_first(), x);
        assert(rx_event_ids(s.push(x)) =~= rx_event_ids(s) + rx_id_seq(x));
    }
}

} // verus!
