//! The cache stage: a sender-side engine holding a key-to-value table.
//! A transmit-path request whose key is in the table is answered directly —
//! a receive-path message carrying the cached value goes back upstream under
//! the same call id and nothing is forwarded downstream; a miss is forwarded
//! unchanged.  Receive-path traffic passes through untouched.

use vstd::prelude::*;

use crate::buffer::BufferPool;
use crate::buffer::MetaBufferPool;
use crate::codec::ControlError;
use crate::codec::ControlRequest;
use crate::codec::decode_request;
use crate::codec::spec_decode_request;
use crate::config::CacheConfig;
use crate::config::ConfigError;
use crate::config::spec_config_accepted;
use crate::engine::DatapathError;
use crate::engine::Indicator;
use crate::engine::Policy;
use crate::engine::RxVerdict;
use crate::engine::Status;
use crate::engine::TxVerdict;
use crate::graph::ChannelStore;
use crate::graph::DataPathNode;
use crate::message::EngineRxMessage;
use crate::message::RpcMessageRx;
use crate::message::RpcMessageTx;
use crate::registry::AddonError;
use crate::registry::EngineType;
use crate::storage::KvTable;
use crate::storage::ResourceCollection;
use crate::storage::ResourceKey;
use crate::storage::ResourceValue;
use crate::storage::RestoreError;
use crate::storage::Version;
use crate::storage::bytes_copy;

verus! {

/// How many call-metadata slots a cache engine owns.
pub const META_POOL_CAP: usize = 1024;

/// The cache pipeline stage.
pub struct CacheEngine {
    pub node: DataPathNode,
    pub indicator: Indicator,
    pub config: CacheConfig,
    pub meta_pool: MetaBufferPool,
    pub buffer: KvTable,
}

/// Materializes the request key a transmit-path message references: a
/// bounds-checked view into the payload pool instead of a raw address.
pub fn get_key(pool: &BufferPool, msg: &RpcMessageTx) -> (r: Option<Vec<u8>>)
    ensures
        match r {
            Some(k) => pool.valid_handle(msg.payload) && k@ == pool.slot_data(msg.payload),
            None => !pool.valid_handle(msg.payload),
        },
{
    match pool.read(msg.payload) {
        Ok(d) => Some(bytes_copy(d)),
        Err(_) => None,
    }
}

/// Materializes the value a receive-path message references.
pub fn get_value(pool: &BufferPool, msg: &RpcMessageRx) -> (r: Option<Vec<u8>>)
    ensures
        match r {
            Some(v) => pool.valid_handle(msg.payload) && v@ == pool.slot_data(msg.payload),
            None => !pool.valid_handle(msg.payload),
        },
{
    match pool.read(msg.payload) {
        Ok(d) => Some(bytes_copy(d)),
        Err(_) => None,
    }
}

/// Whether a transmit-path message is a cache hit against a table, given
/// the payload pool it references.
pub open spec fn spec_cache_hit(t: KvTable, pool: BufferPool, msg: RpcMessageTx) -> bool {
    pool.valid_handle(msg.payload) && t.spec_get(pool.slot_data(msg.payload)) is Some
}

impl Policy for CacheEngine {
    open spec fn inv(&self) -> bool {
        self.buffer.wf()
    }

    open spec fn spec_node(&self) -> DataPathNode {
        self.node
    }

    /// A hit answers upstream with the cached value, in place, under the
    /// request's own call id; a miss (or an invalid payload handle) forwards
    /// the request unchanged.  The table itself is never changed here.
    open spec fn tx_step_rel(
        pre: Self,
        pool0: BufferPool,
        msg: RpcMessageTx,
        post: Self,
        pool1: BufferPool,
        v: TxVerdict,
    ) -> bool {
        &&& post == pre
        &&& if spec_cache_hit(pre.buffer, pool0, msg) {
            &&& v == TxVerdict::Respond(
                EngineRxMessage::RpcMessage(RpcMessageRx { meta: msg.meta, payload: msg.payload }),
            )
            &&& pool1.valid_handle(msg.payload)
            &&& pool1.slot_data(msg.payload) == pre.buffer.spec_get(
                pool0.slot_data(msg.payload),
            )->Some_0
            &&& forall|j: int|
                0 <= j < pool0@.len() && j != msg.payload.index as int ==> pool1@[j] == pool0@[j]
        } else {
            &&& v == TxVerdict::Forward(msg)
            &&& pool1 == pool0
        }
    }

    /// Receive-path traffic passes through this stage untouched.
    open spec fn rx_step_rel(
        pre: Self,
        pool0: BufferPool,
        msg: EngineRxMessage,
        post: Self,
        pool1: BufferPool,
        v: RxVerdict,
    ) -> bool {
        &&& post == pre
        &&& pool1 == pool0
        &&& v == RxVerdict::Forward(msg)
    }

    fn process_tx(&mut self, pool: &mut BufferPool, msg: RpcMessageTx) -> (v: TxVerdict) {
        match get_key(pool, &msg) {
            Some(key) => {
                match self.buffer.get_copy(&key) {
                    Some(value) => {
                        match pool.write(msg.payload, value) {
                            Ok(()) => {},
                            Err(_) => {
                                proof {
                                    assert(false);
                                }
                            },
                        }
                        TxVerdict::Respond(
                            EngineRxMessage::RpcMessage(
                                RpcMessageRx { meta: msg.meta, payload: msg.payload },
                            ),
                        )
                    },
                    None => TxVerdict::Forward(msg),
                }
            },
            None => TxVerdict::Forward(msg),
        }
    }

    fn process_rx(&mut self, pool: &mut BufferPool, msg: EngineRxMessage) -> (v: RxVerdict) {
        RxVerdict::Forward(msg)
    }
}

impl CacheEngine {
    /// Stable human-readable identity for diagnostics.
    pub fn description(&self) -> (r: String)
        ensures
            r@ == "CacheEngine"@,
    {
        "CacheEngine".to_owned()
    }

    /// The scheduler's handle on this engine's work indicator.
    pub fn tracker(&mut self) -> (t: &mut Indicator)
        ensures
            *t == old(self).indicator,
            final(self).indicator == *final(t),
            final(self).node == old(self).node,
            final(self).config == old(self).config,
            final(self).meta_pool == old(self).meta_pool,
            final(self).buffer == old(self).buffer,
    {
        &mut self.indicator
    }

    /// Applies an out-of-band command: a well-formed `NewConfig` envelope
    /// whose payload is a valid (empty) configuration replaces the config;
    /// anything else is rejected and the engine is left exactly as it was.
    pub fn handle_request(&mut self, request: &Vec<u8>) -> (r: Result<(), ControlError>)
        ensures
            final(self).node == old(self).node,
            final(self).indicator == old(self).indicator,
            final(self).meta_pool == old(self).meta_pool,
            final(self).buffer == old(self).buffer,
            match spec_decode_request(request@) {
                Ok(payload) => if payload.len() == 0 {
                    r is Ok && final(self).config == (CacheConfig {})
                } else {
                    r == Err::<(), ControlError>(ControlError::BadConfig) && *final(self) == *old(
                        self,
                    )
                },
                Err(e) => r == Err::<(), ControlError>(ControlError::Decode(e)) && *final(self)
                    == *old(self),
            },
    {
        match decode_request(request) {
            Ok(ControlRequest::NewConfig(payload)) => {
                if payload.len() == 0 {
                    self.config = CacheConfig {};
                    Ok(())
                } else {
                    Err(ControlError::BadConfig)
                }
            },
            Err(e) => Err(ControlError::Decode(e)),
        }
    }

    /// One cooperative tick (see `engine::activate`): services both inputs
    /// until no local progress remains and records the work done.
    pub fn activate(&mut self, pool: &mut BufferPool, store: &mut ChannelStore) -> (st: Status)
        requires
            crate::engine::tick_pre(*old(self), *old(store)),
        ensures
            crate::engine::activate_post::<Self>(
                *old(self),
                *final(self),
                *old(pool),
                *final(pool),
                *old(store),
                *final(store),
                st,
            ),
            st matches Status::Progress(w) ==> final(self).indicator@ == w,
    {
        let node = self.node;
        let st = crate::engine::activate(self, pool, store, node);
        match st {
            Status::Progress(w) => {
                self.indicator.set_nwork(w);
                Status::Progress(w)
            },
            Status::Disconnected => Status::Disconnected,
        }
    }

    /// One steady-state step: transmit input first, then receive input.
    pub fn receiver_check_input_queue(&mut self, pool: &mut BufferPool, store: &mut ChannelStore) -> (st:
        Status)
        requires
            crate::engine::tick_pre(*old(self), *old(store)),
        ensures
            crate::engine::step_post::<Self>(
                *old(self),
                *final(self),
                *old(pool),
                *final(pool),
                *old(store),
                *final(store),
                st,
            ),
    {
        let node = self.node;
        crate::engine::check_input_queue(self, pool, store, node)
    }

    /// Drains both inputs before an upgrade; zero work and no change when
    /// they are already empty.
    pub fn flush(&mut self, pool: &mut BufferPool, store: &mut ChannelStore) -> (r: Result<
        usize,
        DatapathError,
    >)
        requires
            crate::engine::flush_pre(*old(self), *old(store)),
        ensures
            crate::engine::flush_post(*old(self), *final(self), *old(store), *final(store), r),
            final(pool)@.len() == old(pool)@.len(),
    {
        let node = self.node;
        crate::engine::flush(self, pool, store, node)
    }

    /// The decomposed form of this engine: the configuration, the cache
    /// table and the metadata pool, each under its stable key.
    pub open spec fn spec_decomposed(self) -> ResourceCollection {
        ResourceCollection {
            config: Some(ResourceValue::CacheConfig(self.config)),
            buffer: Some(ResourceValue::KvTable(self.buffer)),
            meta_pool: Some(ResourceValue::MetaPool(self.meta_pool)),
            outstanding_req_pool: None,
            state_mgr: None,
        }
    }

    /// Consumes the engine, returning every piece of state a new code
    /// version needs, and the channel endpoints, which belong to the graph
    /// and are handed back separately.
    pub fn decompose(self) -> (r: (ResourceCollection, DataPathNode))
        ensures
            r.0 == self.spec_decomposed(),
            r.1 == self.node,
    {
        let mut collections = ResourceCollection::new();
        collections.insert(ResourceKey::Config, ResourceValue::CacheConfig(self.config));
        collections.insert(ResourceKey::Buffer, ResourceValue::KvTable(self.buffer));
        collections.insert(ResourceKey::MetaPool, ResourceValue::MetaPool(self.meta_pool));
        proof {
            assert(collections.spec_get(ResourceKey::Config) == Some(
                ResourceValue::CacheConfig(self.config),
            ));
            assert(collections.spec_get(ResourceKey::Buffer) == Some(
                ResourceValue::KvTable(self.buffer),
            ));
            assert(collections.spec_get(ResourceKey::MetaPool) == Some(
                ResourceValue::MetaPool(self.meta_pool),
            ));
            assert(collections.spec_get(ResourceKey::OutstandingReqPool) is None);
            assert(collections.spec_get(ResourceKey::StateMgr) is None);
            assert(collections == self.spec_decomposed());
        }
        (collections, self.node)
    }

    /// Rebuilds a cache engine of a (possibly newer) code version from its
    /// decomposed state, re-attached to the same node.  A missing or
    /// mistyped entry aborts the restore: the engine is never built
    /// half-initialized.
    pub fn restore(local: ResourceCollection, node: DataPathNode, _prev_version: Version) -> (r:
        Result<CacheEngine, RestoreError>)
        ensures
            match r {
                Ok(e) => spec_restored(local, node, e),
                Err(err) => {
                    &&& !(local.spec_get(ResourceKey::Config) matches Some(
                        ResourceValue::CacheConfig(_),
                    ) && local.spec_get(ResourceKey::Buffer) matches Some(ResourceValue::KvTable(_))
                        && local.spec_get(ResourceKey::MetaPool) matches Some(
                        ResourceValue::MetaPool(_),
                    ))
                    &&& (err == RestoreError::MissingResource || err
                        == RestoreError::MistypedResource)
                    &&& (err == RestoreError::MissingResource <==> (
                        local.spec_get(ResourceKey::Config) is None
                        || (local.spec_get(ResourceKey::Config) matches Some(
                            ResourceValue::CacheConfig(_),
                        ) && local.spec_get(ResourceKey::Buffer) is None)
                        || (local.spec_get(ResourceKey::Config) matches Some(
                            ResourceValue::CacheConfig(_),
                        ) && local.spec_get(ResourceKey::Buffer) matches Some(
                            ResourceValue::KvTable(_),
                        ) && local.spec_get(ResourceKey::MetaPool) is None)))
                },
            },
            r is Ok <==> spec_restorable(local),
    {
        let mut local = local;
        let config = match local.remove(ResourceKey::Config) {
            Some(ResourceValue::CacheConfig(c)) => c,
            Some(_) => {
                return Err(RestoreError::MistypedResource);
            },
            None => {
                return Err(RestoreError::MissingResource);
            },
        };
        let buffer = match local.remove(ResourceKey::Buffer) {
            Some(ResourceValue::KvTable(t)) => t,
            Some(_) => {
                return Err(RestoreError::MistypedResource);
            },
            None => {
                return Err(RestoreError::MissingResource);
            },
        };
        let meta_pool = match local.remove(ResourceKey::MetaPool) {
            Some(ResourceValue::MetaPool(p)) => p,
            Some(_) => {
                return Err(RestoreError::MistypedResource);
            },
            None => {
                return Err(RestoreError::MissingResource);
            },
        };
        Ok(CacheEngine { node, indicator: Indicator::new(), config, meta_pool, buffer })
    }
}

/// The decomposed-state entries a cache-engine restore accepts: all three
/// keys present, each with its own type tag.
pub open spec fn spec_restorable(local: ResourceCollection) -> bool {
    &&& local.spec_get(ResourceKey::Config) matches Some(ResourceValue::CacheConfig(_))
    &&& local.spec_get(ResourceKey::Buffer) matches Some(ResourceValue::KvTable(_))
    &&& local.spec_get(ResourceKey::MetaPool) matches Some(ResourceValue::MetaPool(_))
}

/// How a restored cache engine relates to its decomposed state: the
/// persisted configuration, table and metadata pool are exactly the ones
/// stored, the node is re-attached unchanged, the indicator starts at zero.
pub open spec fn spec_restored(local: ResourceCollection, node: DataPathNode, e: CacheEngine) -> bool {
    &&& local.spec_get(ResourceKey::Config) == Some(ResourceValue::CacheConfig(e.config))
    &&& local.spec_get(ResourceKey::Buffer) == Some(ResourceValue::KvTable(e.buffer))
    &&& local.spec_get(ResourceKey::MetaPool) == Some(ResourceValue::MetaPool(e.meta_pool))
    &&& e.node == node
    &&& e.indicator@ == 0
}

/// Decompose followed immediately by restore (no version change): the
/// upgrade path the runtime takes when it swaps an engine's code.  It always
/// succeeds and rebuilds an engine observably equivalent to the one torn
/// down — same configuration, same cache table, same metadata pool — still
/// attached to the same node, without the caller rewiring anything.
pub fn upgrade_in_place(e: CacheEngine, version: Version) -> (r: Result<CacheEngine, RestoreError>)
    ensures
        r matches Ok(e2) && e2.config == e.config && e2.buffer == e.buffer && e2.meta_pool
            == e.meta_pool && e2.node == e.node,
{
    let (local, node) = e.decompose();
    CacheEngine::restore(local, node, version)
}

/// Builds a fresh cache engine around a wired node: empty table, empty
/// metadata pool of the fixed capacity.
pub struct CacheEngineBuilder {
    node: DataPathNode,
    config: CacheConfig,
}

impl CacheEngineBuilder {
    pub closed spec fn spec_node(&self) -> DataPathNode {
        self.node
    }

    pub closed spec fn spec_config(&self) -> CacheConfig {
        self.config
    }

    pub fn new(node: DataPathNode, config: CacheConfig) -> (b: CacheEngineBuilder)
        ensures
            b.spec_node() == node,
            b.spec_config() == config,
    {
        CacheEngineBuilder { node, config }
    }

    pub fn build(self) -> (r: Result<CacheEngine, AddonError>)
        ensures
            r matches Ok(e) && e.node == self.spec_node() && e.config == self.spec_config()
                && e.buffer@.len() == 0 && e.buffer.wf() && e.meta_pool@.len() == META_POOL_CAP
                && e.indicator@ == 0,
    {
        Ok(
            CacheEngine {
                node: self.node,
                indicator: Indicator::new(),
                buffer: KvTable::new(),
                meta_pool: MetaBufferPool::new(META_POOL_CAP),
                config: self.config,
            },
        )
    }
}

/// The addon that provides the cache engine to the runtime.
pub struct CacheAddon {
    pub config: CacheConfig,
}

impl CacheAddon {
    pub fn new(config: CacheConfig) -> (a: CacheAddon)
        ensures
            a.config == config,
    {
        CacheAddon { config }
    }

    /// The engine-type name this addon constructs.
    pub fn engine_type() -> (t: EngineType)
        ensures
            t@ == "CacheEngine"@,
    {
        EngineType::new("CacheEngine")
    }

    /// Whether a hot-swapped version may replace a running one.  The cache
    /// engine's persisted-state shape has never changed, so every
    /// predecessor is accepted.
    pub fn check_compatibility(&self, _prev: Option<&Version>) -> (r: bool)
        ensures
            r,
    {
        true
    }

    /// The addon's own persistent state: just its configuration.
    pub fn decompose(self) -> (r: ResourceCollection)
        ensures
            r.spec_get(ResourceKey::Config) == Some(ResourceValue::CacheConfig(self.config)),
            forall|k: ResourceKey| k != ResourceKey::Config ==> r.spec_get(k) is None,
    {
        let mut collections = ResourceCollection::new();
        collections.insert(ResourceKey::Config, ResourceValue::CacheConfig(self.config));
        collections
    }

    /// Inherits nothing from a predecessor: the cache addon keeps no
    /// pid-keyed shared state.
    pub fn migrate(&mut self, _prev_addon: CacheAddon)
        ensures
            *final(self) == *old(self),
    {
    }

    /// The engine types this addon can construct.
    pub fn engines(&self) -> (r: Vec<EngineType>)
        ensures
            r@.len() == 1,
            r@[0]@ == "CacheEngine"@,
    {
        let mut v: Vec<EngineType> = Vec::new();
        v.push(CacheAddon::engine_type());
        v
    }

    /// Replaces the configuration from a strict TOML document.
    pub fn update_config(&mut self, config: &str) -> (r: Result<(), ConfigError>)
        ensures
            r is Ok <==> spec_config_accepted(Some(config)),
            r is Ok ==> final(self).config == (CacheConfig {}),
            r is Err ==> *final(self) == *old(self),
    {
        match CacheConfig::new(Some(config)) {
            Ok(c) => {
                self.config = c;
                Ok(())
            },
            Err(e) => Err(e),
        }
    }

    /// Builds a cache engine wired into `node`.  Only the cache engine type
    /// is accepted.
    pub fn create_engine(&mut self, ty: &EngineType, node: DataPathNode) -> (r: Result<
        CacheEngine,
        AddonError,
    >)
        ensures
            *final(self) == *old(self),
            r is Ok <==> ty@ == "CacheEngine"@,
            r matches Ok(e) ==> e.node == node && e.config == old(self).config && e.buffer@.len()
                == 0 && e.buffer.wf() && e.meta_pool@.len() == META_POOL_CAP,
            r matches Err(err) ==> err == AddonError::InvalidEngineType,
    {
        let expected = CacheAddon::engine_type();
        if !(*ty == expected) {
            return Err(AddonError::InvalidEngineType);
        }
        let builder = CacheEngineBuilder::new(node, self.config);
        builder.build()
    }

    /// Restores a cache engine from its decomposed state.  Only the cache
    /// engine type is accepted; restore failures abort the upgrade.
    pub fn restore_engine(
        &mut self,
        ty: &EngineType,
        local: ResourceCollection,
        node: DataPathNode,
        prev_version: Version,
    ) -> (r: Result<CacheEngine, RestoreError>)
        ensures
            *final(self) == *old(self),
            ty@ != "CacheEngine"@ ==> r == Err::<CacheEngine, RestoreError>(
                RestoreError::WrongEngineType,
            ),
            ty@ == "CacheEngine"@ ==> (r is Ok <==> spec_restorable(local)) && (r matches Ok(e)
                ==> spec_restored(local, node, e)),
    {
        let expected = CacheAddon::engine_type();
        if !(*ty == expected) {
            return Err(RestoreError::WrongEngineType);
        }
        CacheEngine::restore(local, node, prev_version)
    }
}

} // verus!
