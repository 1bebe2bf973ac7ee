//! The admission-control stage: at most `max_concurrent_req` calls may be
//! in flight at once.  A transmit-path request over the limit is answered
//! upstream with an error acknowledgment and is not forwarded; the pending
//! count is left untouched by a rejection.  A successful response on the
//! receive path retires one pending call.

use vstd::prelude::*;

use crate::buffer::BufferPool;
use crate::codec::ControlError;
use crate::codec::ControlRequest;
use crate::codec::decode_request;
use crate::codec::spec_decode_request;
use crate::config::ConfigError;
use crate::config::circuitbreakerConfig;
use crate::config::spec_config_accepted;
use crate::engine::DatapathError;
use crate::engine::Indicator;
use crate::engine::Policy;
use crate::engine::RxVerdict;
use crate::engine::Status;
use crate::engine::TxVerdict;
use crate::graph::ChannelStore;
use crate::graph::DataPathNode;
use crate::message::EngineRxMessage;
use crate::message::RpcId;
use crate::message::RpcMessageTx;
use crate::message::TransportStatus;
use crate::registry::AddonError;
use crate::registry::EngineType;
use crate::storage::ResourceCollection;
use crate::storage::ResourceKey;
use crate::storage::ResourceValue;
use crate::storage::RestoreError;
use crate::storage::Version;

verus! {

/// How many calls may be in flight at once.
pub const MAX_CONCURRENT_REQ: u64 = 10;

/// The status code carried by a rejection acknowledgment.
pub const REJECT_STATUS: u32 = 403;

/// The admission-control stage.
#[allow(non_camel_case_types)]
pub struct circuitbreakerEngine {
    pub node: DataPathNode,
    pub indicator: Indicator,
    pub config: circuitbreakerConfig,
    pub max_concurrent_req: u64,
    pub pending_req: u64,
    pub drop_count: u64,
}

impl Policy for circuitbreakerEngine {
    open spec fn inv(&self) -> bool {
        true
    }

    open spec fn spec_node(&self) -> DataPathNode {
        self.node
    }

    /// Below the limit, the request is admitted: the pending count rises by
    /// one and the message is forwarded unchanged.  At the limit, the
    /// request is answered with an error acknowledgment under its own call
    /// id and nothing is forwarded; the pending count is untouched by the
    /// rejection.
    open spec fn tx_step_rel(
        pre: Self,
        pool0: BufferPool,
        msg: RpcMessageTx,
        post: Self,
        pool1: BufferPool,
        v: TxVerdict,
    ) -> bool {
        &&& pool1 == pool0
        &&& post.node == pre.node
        &&& post.indicator == pre.indicator
        &&& post.config == pre.config
        &&& post.max_concurrent_req == pre.max_concurrent_req
        &&& if pre.pending_req < pre.max_concurrent_req {
            &&& v == TxVerdict::Forward(msg)
            &&& post.pending_req == pre.pending_req + 1
            &&& post.drop_count == pre.drop_count
        } else {
            &&& v == TxVerdict::Respond(
                EngineRxMessage::Ack(
                    msg.meta.spec_rpc_id(),
                    TransportStatus::Error(REJECT_STATUS),
                ),
            )
            &&& post.pending_req == pre.pending_req
            &&& post.drop_count == (if pre.drop_count == u64::MAX {
                u64::MAX as u64
            } else {
                (pre.drop_count + 1) as u64
            })
        }
    }

    /// A successful response retires one pending call; everything is
    /// forwarded upstream unchanged.
    open spec fn rx_step_rel(
        pre: Self,
        pool0: BufferPool,
        msg: EngineRxMessage,
        post: Self,
        pool1: BufferPool,
        v: RxVerdict,
    ) -> bool {
        &&& pool1 == pool0
        &&& v == RxVerdict::Forward(msg)
        &&& post.node == pre.node
        &&& post.indicator == pre.indicator
        &&& post.config == pre.config
        &&& post.max_concurrent_req == pre.max_concurrent_req
        &&& post.drop_count == pre.drop_count
        &&& post.pending_req == (match msg {
            EngineRxMessage::RpcMessage(m) => if m.meta.status == TransportStatus::Success
                && pre.pending_req > 0 {
                (pre.pending_req - 1) as u64
            } else {
                pre.pending_req
            },
            _ => pre.pending_req,
        })
    }

    fn process_tx(&mut self, pool: &mut BufferPool, msg: RpcMessageTx) -> (v: TxVerdict) {
        if self.pending_req < self.max_concurrent_req {
            self.pending_req = self.pending_req + 1;
            TxVerdict::Forward(msg)
        } else {
            if self.drop_count < u64::MAX {
                self.drop_count = self.drop_count + 1;
            }
            TxVerdict::Respond(
                EngineRxMessage::Ack(
                    RpcId::new(msg.meta.conn_id, msg.meta.call_id),
                    TransportStatus::Error(REJECT_STATUS),
                ),
            )
        }
    }

    fn process_rx(&mut self, pool: &mut BufferPool, msg: EngineRxMessage) -> (v: RxVerdict) {
        match &msg {
            EngineRxMessage::RpcMessage(m) => {
                let success = match m.meta.status {
                    TransportStatus::Success => true,
                    TransportStatus::Error(_) => false,
                };
                if success && self.pending_req > 0 {
                    self.pending_req = self.pending_req - 1;
                }
            },
            _ => {},
        }
        RxVerdict::Forward(msg)
    }
}

impl circuitbreakerEngine {
    pub fn description(&self) -> (r: String)
        ensures
            r@ == "circuitbreakerEngine"@,
    {
        "circuitbreakerEngine".to_owned()
    }

    pub fn tracker(&mut self) -> (t: &mut Indicator)
        ensures
            *t == old(self).indicator,
            final(self).indicator == *final(t),
            final(self).node == old(self).node,
            final(self).config == old(self).config,
            final(self).max_concurrent_req == old(self).max_concurrent_req,
            final(self).pending_req == old(self).pending_req,
            final(self).drop_count == old(self).drop_count,
    {
        &mut self.indicator
    }

    pub fn handle_request(&mut self, request: &Vec<u8>) -> (r: Result<(), ControlError>)
        ensures
            final(self).node == old(self).node,
            final(self).indicator == old(self).indicator,
            final(self).max_concurrent_req == old(self).max_concurrent_req,
            final(self).pending_req == old(self).pending_req,
            final(self).drop_count == old(self).drop_count,
            match spec_decode_request(request@) {
                Ok(payload) => if payload.len() == 0 {
                    r is Ok && final(self).config == (circuitbreakerConfig {})
                } else {
                    r == Err::<(), ControlError>(ControlError::BadConfig) && *final(self) == *old(
                        self,
                    )
                },
                Err(e) => r == Err::<(), ControlError>(ControlError::Decode(e)) && *final(self)
                    == *old(self),
            },
    {
        match decode_request(request) {
            Ok(ControlRequest::NewConfig(payload)) => {
                if payload.len() == 0 {
                    self.config = circuitbreakerConfig {};
                    Ok(())
                } else {
                    Err(ControlError::BadConfig)
                }
            },
            Err(e) => Err(ControlError::Decode(e)),
        }
    }

    pub fn activate(&mut self, pool: &mut BufferPool, store: &mut ChannelStore) -> (st: Status)
        requires
            crate::engine::tick_pre(*old(self), *old(store)),
        ensures
            crate::engine::activate_post::<Self>(
                *old(self),
                *final(self),
                *old(pool),
                *final(pool),
                *old(store),
                *final(store),
                st,
            ),
            st matches Status::Progress(w) ==> final(self).indicator@ == w,
    {
        let node = self.node;
        let st = crate::engine::activate(self, pool, store, node);
        match st {
            Status::Progress(w) => {
                self.indicator.set_nwork(w);
                Status::Progress(w)
            },
            Status::Disconnected => Status::Disconnected,
        }
    }

    pub fn check_input_queue(&mut self, pool: &mut BufferPool, store: &mut ChannelStore) -> (st:
        Status)
        requires
            crate::engine::tick_pre(*old(self), *old(store)),
        ensures
            crate::engine::step_post::<Self>(
                *old(self),
                *final(self),
                *old(pool),
                *final(pool),
                *old(store),
                *final(store),
                st,
            ),
    {
        let node = self.node;
        crate::engine::check_input_queue(self, pool, store, node)
    }

    pub fn flush(&mut self, pool: &mut BufferPool, store: &mut ChannelStore) -> (r: Result<
        usize,
        DatapathError,
    >)
        requires
            crate::engine::flush_pre(*old(self), *old(store)),
        ensures
            crate::engine::flush_post(*old(self), *final(self), *old(store), *final(store), r),
            final(pool)@.len() == old(pool)@.len(),
    {
        let node = self.node;
        crate::engine::flush(self, pool, store, node)
    }

    /// Only the configuration is persistent; the admission counters are
    /// transient and reset on restore.
    pub fn decompose(self) -> (r: (ResourceCollection, DataPathNode))
        ensures
            r.0.spec_get(ResourceKey::Config) == Some(
                ResourceValue::CircuitBreakerConfig(self.config),
            ),
            forall|k: ResourceKey| k != ResourceKey::Config ==> r.0.spec_get(k) is None,
            r.1 == self.node,
    {
        let mut collections = ResourceCollection::new();
        collections.insert(ResourceKey::Config, ResourceValue::CircuitBreakerConfig(self.config));
        (collections, self.node)
    }

    /// Rebuilds the stage from its decomposed state with fresh counters.
    pub fn restore(local: ResourceCollection, node: DataPathNode, _prev_version: Version) -> (r:
        Result<circuitbreakerEngine, RestoreError>)
        ensures
            r is Ok <==> spec_restorable(local),
            r matches Ok(e) ==> spec_restored(local, node, e),
    {
        let mut local = local;
        let config = match local.remove(ResourceKey::Config) {
            Some(ResourceValue::CircuitBreakerConfig(c)) => c,
            Some(_) => {
                return Err(RestoreError::MistypedResource);
            },
            None => {
                return Err(RestoreError::MissingResource);
            },
        };
        Ok(
            circuitbreakerEngine {
                node,
                indicator: Indicator::new(),
                config,
                max_concurrent_req: MAX_CONCURRENT_REQ,
                pending_req: 0,
                drop_count: 0,
            },
        )
    }
}

/// The decomposed-state entry an admission-control restore accepts.
pub open spec fn spec_restorable(local: ResourceCollection) -> bool {
    local.spec_get(ResourceKey::Config) matches Some(ResourceValue::CircuitBreakerConfig(_))
}

/// How a restored admission-control stage relates to its decomposed state:
/// the persisted configuration is the one stored, the node is re-attached
/// unchanged, and the transient counters restart fresh.
pub open spec fn spec_restored(
    local: ResourceCollection,
    node: DataPathNode,
    e: circuitbreakerEngine,
) -> bool {
    &&& local.spec_get(ResourceKey::Config) == Some(ResourceValue::CircuitBreakerConfig(e.config))
    &&& e.node == node
    &&& e.indicator@ == 0
    &&& e.max_concurrent_req == MAX_CONCURRENT_REQ
    &&& e.pending_req == 0
    &&& e.drop_count == 0
}

/// Builds a fresh admission-control stage around a wired node.
#[allow(non_camel_case_types)]
pub struct circuitbreakerEngineBuilder {
    node: DataPathNode,
    config: circuitbreakerConfig,
}

impl circuitbreakerEngineBuilder {
    pub closed spec fn spec_node(&self) -> DataPathNode {
        self.node
    }

    pub closed spec fn spec_config(&self) -> circuitbreakerConfig {
        self.config
    }

    pub fn new(node: DataPathNode, config: circuitbreakerConfig) -> (b: circuitbreakerEngineBuilder)
        ensures
            b.spec_node() == node,
            b.spec_config() == config,
    {
        circuitbreakerEngineBuilder { node, config }
    }

    pub fn build(self) -> (r: Result<circuitbreakerEngine, AddonError>)
        ensures
            r matches Ok(e) && e.node == self.spec_node() && e.config == self.spec_config()
                && e.max_concurrent_req == MAX_CONCURRENT_REQ && e.pending_req == 0 && e.drop_count
                == 0 && e.indicator@ == 0,
    {
        Ok(
            circuitbreakerEngine {
                node: self.node,
                indicator: Indicator::new(),
                config: self.config,
                max_concurrent_req: MAX_CONCURRENT_REQ,
                pending_req: 0,
                drop_count: 0,
            },
        )
    }
}

/// The addon that provides the admission-control stage.
#[allow(non_camel_case_types)]
pub struct circuitbreakerAddon {
    pub config: circuitbreakerConfig,
}

impl circuitbreakerAddon {
    pub fn new(config: circuitbreakerConfig) -> (a: circuitbreakerAddon)
        ensures
            a.config == config,
    {
        circuitbreakerAddon { config }
    }

    pub fn engine_type() -> (t: EngineType)
        ensures
            t@ == "circuitbreakerEngine"@,
    {
        EngineType::new("circuitbreakerEngine")
    }

    pub fn check_compatibility(&self, _prev: Option<&Version>) -> (r: bool)
        ensures
            r,
    {
        true
    }

    pub fn decompose(self) -> (r: ResourceCollection)
        ensures
            r.spec_get(ResourceKey::Config) == Some(
                ResourceValue::CircuitBreakerConfig(self.config),
            ),
            forall|k: ResourceKey| k != ResourceKey::Config ==> r.spec_get(k) is None,
    {
        let mut collections = ResourceCollection::new();
        collections.insert(ResourceKey::Config, ResourceValue::CircuitBreakerConfig(self.config));
        collections
    }

    pub fn migrate(&mut self, _prev_addon: circuitbreakerAddon)
        ensures
            *final(self) == *old(self),
    {
    }

    pub fn engines(&self) -> (r: Vec<EngineType>)
        ensures
            r@.len() == 1,
            r@[0]@ == "circuitbreakerEngine"@,
    {
        let mut v: Vec<EngineType> = Vec::new();
        v.push(circuitbreakerAddon::engine_type());
        v
    }

    pub fn update_config(&mut self, config: &str) -> (r: Result<(), ConfigError>)
        ensures
            r is Ok <==> spec_config_accepted(Some(config)),
            r is Ok ==> final(self).config == (circuitbreakerConfig {}),
            r is Err ==> *final(self) == *old(self),
    {
        match circuitbreakerConfig::new(Some(config)) {
            Ok(c) => {
                self.config = c;
                Ok(())
            },
            Err(e) => Err(e),
        }
    }

    pub fn create_engine(&mut self, ty: &EngineType, node: DataPathNode) -> (r: Result<
        circuitbreakerEngine,
        AddonError,
    >)
        ensures
            *final(self) == *old(self),
            r is Ok <==> ty@ == "circuitbreakerEngine"@,
            r matches Ok(e) ==> e.node == node && e.config == old(self).config
                && e.max_concurrent_req == MAX_CONCURRENT_REQ && e.pending_req == 0,
            r matches Err(err) ==> err == AddonError::InvalidEngineType,
    {
        let expected = circuitbreakerAddon::engine_type();
        if !(*ty == expected) {
            return Err(AddonError::InvalidEngineType);
        }
        let builder = circuitbreakerEngineBuilder::new(node, self.config);
        builder.build()
    }

    pub fn restore_engine(
        &mut self,
        ty: &EngineType,
        local: ResourceCollection,
        node: DataPathNode,
        prev_version: Version,
    ) -> (r: Result<circuitbreakerEngine, RestoreError>)
        ensures
            *final(self) == *old(self),
            ty@ != "circuitbreakerEngine"@ ==> r == Err::<circuitbreakerEngine, RestoreError>(
                RestoreError::WrongEngineType,
            ),
            ty@ == "circuitbreakerEngine"@ ==> (r is Ok <==> spec_restorable(local)) && (r matches
                Ok(e) ==> spec_restored(local, node, e)),
    {
        let expected = circuitbreakerAddon::engine_type();
        if !(*ty == expected) {
            return Err(RestoreError::WrongEngineType);
        }
        circuitbreakerEngine::restore(local, node, prev_version)
    }
}

} // verus!
