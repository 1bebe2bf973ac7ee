//! The learning-cache stage: a transmit-path request whose payload is
//! already in the table is answered upstream with an error acknowledgment
//! and not forwarded; a miss is forwarded unchanged.  Successful responses
//! on the receive path populate the table with their payload before being
//! forwarded, so repeats of a completed request are cut off at this stage.

use vstd::prelude::*;

use crate::buffer::BufferPool;
use crate::codec::ControlError;
use crate::codec::ControlRequest;
use crate::codec::decode_request;
use crate::codec::spec_decode_request;
use crate::config::ConfigError;
use crate::config::cachehackConfig;
use crate::config::spec_config_accepted;
use crate::engine::DatapathError;
use crate::engine::Indicator;
use crate::engine::Policy;
use crate::engine::RxVerdict;
use crate::engine::Status;
use crate::engine::TxVerdict;
use crate::graph::ChannelStore;
use crate::graph::DataPathNode;
use crate::message::EngineRxMessage;
use crate::message::RpcId;
use crate::message::RpcMessageRx;
use crate::message::RpcMessageTx;
use crate::message::TransportStatus;
use crate::registry::AddonError;
use crate::registry::EngineType;
use crate::storage::KvTable;
use crate::storage::ResourceCollection;
use crate::storage::ResourceKey;
use crate::storage::ResourceValue;
use crate::storage::RestoreError;
use crate::storage::Version;
use crate::storage::bytes_copy;

verus! {

/// The status code carried by a cut-off acknowledgment.
pub const HIT_STATUS: u32 = 403;

/// The learning-cache stage.
#[allow(non_camel_case_types)]
pub struct cachehackEngine {
    pub node: DataPathNode,
    pub indicator: Indicator,
    pub config: cachehackConfig,
    pub cache: KvTable,
}

/// Materializes the payload bytes a transmit-path message references.
pub fn materialize_nocopy_tx(pool: &BufferPool, msg: &RpcMessageTx) -> (r: Option<Vec<u8>>)
    ensures
        match r {
            Some(d) => pool.valid_handle(msg.payload) && d@ == pool.slot_data(msg.payload),
            None => !pool.valid_handle(msg.payload),
        },
{
    match pool.read(msg.payload) {
        Ok(d) => Some(bytes_copy(d)),
        Err(_) => None,
    }
}

/// Materializes the payload bytes a receive-path message references.
pub fn materialize_nocopy_rx(pool: &BufferPool, msg: &RpcMessageRx) -> (r: Option<Vec<u8>>)
    ensures
        match r {
            Some(d) => pool.valid_handle(msg.payload) && d@ == pool.slot_data(msg.payload),
            None => !pool.valid_handle(msg.payload),
        },
{
    match pool.read(msg.payload) {
        Ok(d) => Some(bytes_copy(d)),
        Err(_) => None,
    }
}

impl Policy for cachehackEngine {
    open spec fn inv(&self) -> bool {
        self.cache.wf()
    }

    open spec fn spec_node(&self) -> DataPathNode {
        self.node
    }

    /// A request already in the table is cut off: answered with an error
    /// acknowledgment under its own call id and not forwarded.  This is
    /// deliberately this stage's form of a hit — a duplicate-suppression
    /// policy — not the plain cache stage's reply carrying the cached value.
    /// A miss (or an invalid payload handle) is forwarded unchanged.
    open spec fn tx_step_rel(
        pre: Self,
        pool0: BufferPool,
        msg: RpcMessageTx,
        post: Self,
        pool1: BufferPool,
        v: TxVerdict,
    ) -> bool {
        &&& post == pre
        &&& pool1 == pool0
        &&& if crate::cache::spec_cache_hit(pre.cache, pool0, msg) {
            v == TxVerdict::Respond(
                EngineRxMessage::Ack(msg.meta.spec_rpc_id(), TransportStatus::Error(HIT_STATUS)),
            )
        } else {
            v == TxVerdict::Forward(msg)
        }
    }

    /// A successful response populates the table with its payload (stored
    /// under itself) before being forwarded; everything else passes through
    /// unchanged.
    open spec fn rx_step_rel(
        pre: Self,
        pool0: BufferPool,
        msg: EngineRxMessage,
        post: Self,
        pool1: BufferPool,
        v: RxVerdict,
    ) -> bool {
        &&& pool1 == pool0
        &&& v == RxVerdict::Forward(msg)
        &&& post.node == pre.node
        &&& post.indicator == pre.indicator
        &&& post.config == pre.config
        &&& match msg {
            EngineRxMessage::RpcMessage(m) => if m.meta.status == TransportStatus::Success
                && pool0.valid_handle(m.payload) {
                &&& post.cache.spec_get(pool0.slot_data(m.payload)) == Some(
                    pool0.slot_data(m.payload),
                )
                &&& forall|k2: Seq<u8>|
                    k2 != pool0.slot_data(m.payload) ==> post.cache.spec_get(k2)
                        == pre.cache.spec_get(k2)
            } else {
                post.cache == pre.cache
            },
            _ => post.cache == pre.cache,
        }
    }

    fn process_tx(&mut self, pool: &mut BufferPool, msg: RpcMessageTx) -> (v: TxVerdict) {
        match materialize_nocopy_tx(pool, &msg) {
            Some(key) => {
                if self.cache.contains(&key) {
                    TxVerdict::Respond(
                        EngineRxMessage::Ack(
                            RpcId::new(msg.meta.conn_id, msg.meta.call_id),
                            TransportStatus::Error(HIT_STATUS),
                        ),
                    )
                } else {
                    TxVerdict::Forward(msg)
                }
            },
            None => TxVerdict::Forward(msg),
        }
    }

    fn process_rx(&mut self, pool: &mut BufferPool, msg: EngineRxMessage) -> (v: RxVerdict) {
        match &msg {
            EngineRxMessage::RpcMessage(m) => {
                let success = match m.meta.status {
                    TransportStatus::Success => true,
                    TransportStatus::Error(_) => false,
                };
                if success {
                    match materialize_nocopy_rx(pool, m) {
                        Some(data) => {
                            let value = bytes_copy(&data);
                            self.cache.insert(data, value);
                        },
                        None => {},
                    }
                }
            },
            _ => {},
        }
        RxVerdict::Forward(msg)
    }
}

impl cachehackEngine {
    pub fn description(&self) -> (r: String)
        ensures
            r@ == "cachehackEngine"@,
    {
        "cachehackEngine".to_owned()
    }

    pub fn tracker(&mut self) -> (t: &mut Indicator)
        ensures
            *t == old(self).indicator,
            final(self).indicator == *final(t),
            final(self).node == old(self).node,
            final(self).config == old(self).config,
            final(self).cache == old(self).cache,
    {
        &mut self.indicator
    }

    pub fn handle_request(&mut self, request: &Vec<u8>) -> (r: Result<(), ControlError>)
        ensures
            final(self).node == old(self).node,
            final(self).indicator == old(self).indicator,
            final(self).cache == old(self).cache,
            match spec_decode_request(request@) {
                Ok(payload) => if payload.len() == 0 {
                    r is Ok && final(self).config == (cachehackConfig {})
                } else {
                    r == Err::<(), ControlError>(ControlError::BadConfig) && *final(self) == *old(
                        self,
                    )
                },
                Err(e) => r == Err::<(), ControlError>(ControlError::Decode(e)) && *final(self)
                    == *old(self),
            },
    {
        match decode_request(request) {
            Ok(ControlRequest::NewConfig(payload)) => {
                if payload.len() == 0 {
                    self.config = cachehackConfig {};
                    Ok(())
                } else {
                    Err(ControlError::BadConfig)
                }
            },
            Err(e) => Err(ControlError::Decode(e)),
        }
    }

    pub fn activate(&mut self, pool: &mut BufferPool, store: &mut ChannelStore) -> (st: Status)
        requires
            crate::engine::tick_pre(*old(self), *old(store)),
        ensures
            crate::engine::activate_post::<Self>(
                *old(self),
                *final(self),
                *old(pool),
                *final(pool),
                *old(store),
                *final(store),
                st,
            ),
            st matches Status::Progress(w) ==> final(self).indicator@ == w,
    {
        let node = self.node;
        let st = crate::engine::activate(self, pool, store, node);
        match st {
            Status::Progress(w) => {
                self.indicator.set_nwork(w);
                Status::Progress(w)
            },
            Status::Disconnected => Status::Disconnected,
        }
    }

    pub fn check_input_queue(&mut self, pool: &mut BufferPool, store: &mut ChannelStore) -> (st:
        Status)
        requires
            crate::engine::tick_pre(*old(self), *old(store)),
        ensures
            crate::engine::step_post::<Self>(
                *old(self),
                *final(self),
                *old(pool),
                *final(pool),
                *old(store),
                *final(store),
                st,
            ),
    {
        let node = self.node;
        crate::engine::check_input_queue(self, pool, store, node)
    }

    pub fn flush(&mut self, pool: &mut BufferPool, store: &mut ChannelStore) -> (r: Result<
        usize,
        DatapathError,
    >)
        requires
            crate::engine::flush_pre(*old(self), *old(store)),
        ensures
            crate::engine::flush_post(*old(self), *final(self), *old(store), *final(store), r),
            final(pool)@.len() == old(pool)@.len(),
    {
        let node = self.node;
        crate::engine::flush(self, pool, store, node)
    }

    /// Only the configuration is persistent; the learned table is transient
    /// and restarts empty after an upgrade.
    pub fn decompose(self) -> (r: (ResourceCollection, DataPathNode))
        ensures
            r.0.spec_get(ResourceKey::Config) == Some(ResourceValue::CachehackConfig(self.config)),
            forall|k: ResourceKey| k != ResourceKey::Config ==> r.0.spec_get(k) is None,
            r.1 == self.node,
    {
        let mut collections = ResourceCollection::new();
        collections.insert(ResourceKey::Config, ResourceValue::CachehackConfig(self.config));
        (collections, self.node)
    }

    /// Rebuilds the stage from its decomposed state with an empty table.
    pub fn restore(local: ResourceCollection, node: DataPathNode, _prev_version: Version) -> (r:
        Result<cachehackEngine, RestoreError>)
        ensures
            r is Ok <==> spec_restorable(local),
            r matches Ok(e) ==> spec_restored(local, node, e),
    {
        let mut local = local;
        let config = match local.remove(ResourceKey::Config) {
            Some(ResourceValue::CachehackConfig(c)) => c,
            Some(_) => {
                return Err(RestoreError::MistypedResource);
            },
            None => {
                return Err(RestoreError::MissingResource);
            },
        };
        Ok(cachehackEngine { node, indicator: Indicator::new(), config, cache: KvTable::new() })
    }
}

/// The decomposed-state entry a learning-cache restore accepts.
pub open spec fn spec_restorable(local: ResourceCollection) -> bool {
    local.spec_get(ResourceKey::Config) matches Some(ResourceValue::CachehackConfig(_))
}

/// How a restored learning-cache stage relates to its decomposed state: the
/// persisted configuration is the one stored, the node is re-attached
/// unchanged, and the transient table restarts empty.
pub open spec fn spec_restored(
    local: ResourceCollection,
    node: DataPathNode,
    e: cachehackEngine,
) -> bool {
    &&& local.spec_get(ResourceKey::Config) == Some(ResourceValue::CachehackConfig(e.config))
    &&& e.node == node
    &&& e.indicator@ == 0
    &&& e.cache@.len() == 0
}

/// Builds a fresh learning-cache stage around a wired node.
#[allow(non_camel_case_types)]
pub struct cachehackEngineBuilder {
    node: DataPathNode,
    config: cachehackConfig,
}

impl cachehackEngineBuilder {
    pub closed spec fn spec_node(&self) -> DataPathNode {
        self.node
    }

    pub closed spec fn spec_config(&self) -> cachehackConfig {
        self.config
    }

    pub fn new(node: DataPathNode, config: cachehackConfig) -> (b: cachehackEngineBuilder)
        ensures
            b.spec_node() == node,
            b.spec_config() == config,
    {
        cachehackEngineBuilder { node, config }
    }

    pub fn build(self) -> (r: Result<cachehackEngine, AddonError>)
        ensures
            r matches Ok(e) && e.node == self.spec_node() && e.config == self.spec_config()
                && e.cache@.len() == 0 && e.indicator@ == 0,
    {
        Ok(
            cachehackEngine {
                node: self.node,
                indicator: Indicator::new(),
                config: self.config,
                cache: KvTable::new(),
            },
        )
    }
}

/// The addon that provides the learning-cache stage.
#[allow(non_camel_case_types)]
pub struct cachehackAddon {
    pub config: cachehackConfig,
}

impl cachehackAddon {
    pub fn new(config: cachehackConfig) -> (a: cachehackAddon)
        ensures
            a.config == config,
    {
        cachehackAddon { config }
    }

    pub fn engine_type() -> (t: EngineType)
        ensures
            t@ == "cachehackEngine"@,
    {
        EngineType::new("cachehackEngine")
    }

    pub fn check_compatibility(&self, _prev: Option<&Version>) -> (r: bool)
        ensures
            r,
    {
        true
    }

    pub fn decompose(self) -> (r: ResourceCollection)
        ensures
            r.spec_get(ResourceKey::Config) == Some(ResourceValue::CachehackConfig(self.config)),
            forall|k: ResourceKey| k != ResourceKey::Config ==> r.spec_get(k) is None,
    {
        let mut collections = ResourceCollection::new();
        collections.insert(ResourceKey::Config, ResourceValue::CachehackConfig(self.config));
        collections
    }

    pub fn migrate(&mut self, _prev_addon: cachehackAddon)
        ensures
            *final(self) == *old(self),
    {
    }

    pub fn engines(&self) -> (r: Vec<EngineType>)
        ensures
            r@.len() == 1,
            r@[0]@ == "cachehackEngine"@,
    {
        let mut v: Vec<EngineType> = Vec::new();
        v.push(cachehackAddon::engine_type());
        v
    }

    pub fn update_config(&mut self, config: &str) -> (r: Result<(), ConfigError>)
        ensures
            r is Ok <==> spec_config_accepted(Some(config)),
            r is Ok ==> final(self).config == (cachehackConfig {}),
            r is Err ==> *final(self) == *old(self),
    {
        match cachehackConfig::new(Some(config)) {
            Ok(c) => {
                self.config = c;
                Ok(())
            },
            Err(e) => Err(e),
        }
    }

    pub fn create_engine(&mut self, ty: &EngineType, node: DataPathNode) -> (r: Result<
        cachehackEngine,
        AddonError,
    >)
        ensures
            *final(self) == *old(self),
            r is Ok <==> ty@ == "cachehackEngine"@,
            r matches Ok(e) ==> e.node == node && e.config == old(self).config && e.cache@.len()
                == 0,
            r matches Err(err) ==> err == AddonError::InvalidEngineType,
    {
        let expected = cachehackAddon::engine_type();
        if !(*ty == expected) {
            return Err(AddonError::InvalidEngineType);
        }
        let builder = cachehackEngineBuilder::new(node, self.config);
        builder.build()
    }

    pub fn restore_engine(
        &mut self,
        ty: &EngineType,
        local: ResourceCollection,
        node: DataPathNode,
        prev_version: Version,
    ) -> (r: Result<cachehackEngine, RestoreError>)
        ensures
            *final(self) == *old(self),
            ty@ != "cachehackEngine"@ ==> r == Err::<cachehackEngine, RestoreError>(
                RestoreError::WrongEngineType,
            ),
            ty@ == "cachehackEngine"@ ==> (r is Ok <==> spec_restorable(local)) && (r matches Ok(e)
                ==> spec_restored(local, node, e)),
    {
        let expected = cachehackAddon::engine_type();
        if !(*ty == expected) {
            return Err(RestoreError::WrongEngineType);
        }
        cachehackEngine::restore(local, node, prev_version)
    }
}

} // verus!
