//! The server-side decryption stage: every incoming RPC payload on the
//! receive path is XOR-padded again with the stage's password, restoring
//! what the sender-side stage encrypted.  Acknowledgments settle this
//! stage's own metadata slots: an ack whose call id is held by the pool
//! reclaims the slot and is consumed; any other ack is forwarded upstream.

use vstd::prelude::*;

use crate::buffer::BufferPool;
use crate::buffer::MetaBufferPool;
use crate::codec::ControlError;
use crate::codec::ControlRequest;
use crate::codec::decode_request;
use crate::codec::spec_decode_request;
use crate::config::ConfigError;
use crate::config::DecryptServerConfig;
use crate::config::spec_config_accepted;
use crate::crypto::xor_bytes;
use crate::crypto::xor_transform;
use crate::engine::DatapathError;
use crate::engine::Indicator;
use crate::engine::Policy;
use crate::engine::RxVerdict;
use crate::engine::Status;
use crate::engine::TxVerdict;
use crate::graph::ChannelStore;
use crate::graph::DataPathNode;
use crate::message::EngineRxMessage;
use crate::message::RpcMessageRx;
use crate::message::RpcMessageTx;
use crate::registry::AddonError;
use crate::registry::EngineType;
use crate::storage::ResourceCollection;
use crate::storage::ResourceKey;
use crate::storage::ResourceValue;
use crate::storage::RestoreError;
use crate::storage::Version;
use crate::storage::str_bytes_vec;

verus! {

/// How many call-metadata slots a decrypt stage owns.
pub const META_BUF_POOL_CAP: usize = 128;

/// Applies the stage's pad to a response payload in the pool, in place:
/// the inverse of the sender-side transform (the pad is self-inverse).
pub fn decrypt(pool: &mut BufferPool, msg: &RpcMessageRx, key: &Vec<u8>) -> (r: bool)
    ensures
        r == old(pool).valid_handle(msg.payload),
        if r {
            &&& final(pool).valid_handle(msg.payload)
            &&& final(pool).slot_data(msg.payload) == xor_bytes(
                old(pool).slot_data(msg.payload),
                key@,
            )
            &&& forall|j: int|
                0 <= j < old(pool)@.len() && j != msg.payload.index as int ==> final(pool)@[j]
                    == old(pool)@[j]
            &&& final(pool)@.len() == old(pool)@.len()
        } else {
            *final(pool) == *old(pool)
        },
{
    let padded = match pool.read(msg.payload) {
        Ok(d) => xor_transform(d, key),
        Err(_) => {
            return false;
        },
    };
    match pool.write(msg.payload, padded) {
        Ok(()) => true,
        Err(_) => {
            proof {
                assert(false);
            }
            false
        },
    }
}

/// The server-side decryption stage.
pub struct DecryptServerEngine {
    pub node: DataPathNode,
    pub indicator: Indicator,
    pub config: DecryptServerConfig,
    pub meta_buf_pool: MetaBufferPool,
    pub password: Vec<u8>,
}

impl Policy for DecryptServerEngine {
    open spec fn inv(&self) -> bool {
        true
    }

    open spec fn spec_node(&self) -> DataPathNode {
        self.node
    }

    /// Transmit-path traffic passes through this stage untouched.
    open spec fn tx_step_rel(
        pre: Self,
        pool0: BufferPool,
        msg: RpcMessageTx,
        post: Self,
        pool1: BufferPool,
        v: TxVerdict,
    ) -> bool {
        &&& post == pre
        &&& pool1 == pool0
        &&& v == TxVerdict::Forward(msg)
    }

    /// An RPC message has its payload unpadded in place and is forwarded
    /// under the same id.  An ack held by this stage's metadata pool
    /// reclaims the slot and is consumed; one that is not held is forwarded.
    /// Receive errors pass through.
    open spec fn rx_step_rel(
        pre: Self,
        pool0: BufferPool,
        msg: EngineRxMessage,
        post: Self,
        pool1: BufferPool,
        v: RxVerdict,
    ) -> bool {
        &&& post.node == pre.node
        &&& post.indicator == pre.indicator
        &&& post.config == pre.config
        &&& post.password == pre.password
        &&& match msg {
            EngineRxMessage::Ack(id, st) => {
                &&& pool1 == pool0
                &&& if pre.meta_buf_pool.holds(id) {
                    v == RxVerdict::Consume && crate::buffer::spec_released(
                        pre.meta_buf_pool@,
                        post.meta_buf_pool@,
                        id,
                    )
                } else {
                    &&& v == RxVerdict::Forward(EngineRxMessage::Ack(id, st))
                    &&& post.meta_buf_pool == pre.meta_buf_pool
                }
            },
            EngineRxMessage::RpcMessage(m) => {
                &&& v == RxVerdict::Forward(EngineRxMessage::RpcMessage(m))
                &&& post.meta_buf_pool == pre.meta_buf_pool
                &&& if pool0.valid_handle(m.payload) {
                    &&& pool1.slot_data(m.payload) == xor_bytes(
                        pool0.slot_data(m.payload),
                        pre.password@,
                    )
                    &&& forall|j: int|
                        0 <= j < pool0@.len() && j != m.payload.index as int ==> pool1@[j]
                            == pool0@[j]
                } else {
                    pool1 == pool0
                }
            },
            EngineRxMessage::RecvError(_, _) => {
                &&& v == RxVerdict::Forward(msg)
                &&& pool1 == pool0
                &&& post.meta_buf_pool == pre.meta_buf_pool
            },
        }
    }

    fn process_tx(&mut self, pool: &mut BufferPool, msg: RpcMessageTx) -> (v: TxVerdict) {
        TxVerdict::Forward(msg)
    }

    fn process_rx(&mut self, pool: &mut BufferPool, msg: EngineRxMessage) -> (v: RxVerdict) {
        match msg {
            EngineRxMessage::Ack(id, st) => {
                match self.meta_buf_pool.release(id) {
                    Ok(()) => RxVerdict::Consume,
                    Err(_) => RxVerdict::Forward(EngineRxMessage::Ack(id, st)),
                }
            },
            EngineRxMessage::RpcMessage(m) => {
                decrypt(pool, &m, &self.password);
                RxVerdict::Forward(EngineRxMessage::RpcMessage(m))
            },
            EngineRxMessage::RecvError(conn, code) => {
                RxVerdict::Forward(EngineRxMessage::RecvError(conn, code))
            },
        }
    }
}

impl DecryptServerEngine {
    pub fn description(&self) -> (r: String)
        ensures
            r@ == "DecryptServerEngine"@,
    {
        "DecryptServerEngine".to_owned()
    }

    pub fn tracker(&mut self) -> (t: &mut Indicator)
        ensures
            *t == old(self).indicator,
            final(self).indicator == *final(t),
            final(self).node == old(self).node,
            final(self).config == old(self).config,
            final(self).meta_buf_pool == old(self).meta_buf_pool,
            final(self).password == old(self).password,
    {
        &mut self.indicator
    }

    pub fn handle_request(&mut self, request: &Vec<u8>) -> (r: Result<(), ControlError>)
        ensures
            final(self).node == old(self).node,
            final(self).indicator == old(self).indicator,
            final(self).meta_buf_pool == old(self).meta_buf_pool,
            final(self).password == old(self).password,
            match spec_decode_request(request@) {
                Ok(payload) => if payload.len() == 0 {
                    r is Ok && final(self).config == (DecryptServerConfig {})
                } else {
                    r == Err::<(), ControlError>(ControlError::BadConfig) && *final(self) == *old(
                        self,
                    )
                },
                Err(e) => r == Err::<(), ControlError>(ControlError::Decode(e)) && *final(self)
                    == *old(self),
            },
    {
        match decode_request(request) {
            Ok(ControlRequest::NewConfig(payload)) => {
                if payload.len() == 0 {
                    self.config = DecryptServerConfig {};
                    Ok(())
                } else {
                    Err(ControlError::BadConfig)
                }
            },
            Err(e) => Err(ControlError::Decode(e)),
        }
    }

    pub fn activate(&mut self, pool: &mut BufferPool, store: &mut ChannelStore) -> (st: Status)
        requires
            crate::engine::tick_pre(*old(self), *old(store)),
        ensures
            crate::engine::activate_post::<Self>(
                *old(self),
                *final(self),
                *old(pool),
                *final(pool),
                *old(store),
                *final(store),
                st,
            ),
            st matches Status::Progress(w) ==> final(self).indicator@ == w,
    {
        let node = self.node;
        let st = crate::engine::activate(self, pool, store, node);
        match st {
            Status::Progress(w) => {
                self.indicator.set_nwork(w);
                Status::Progress(w)
            },
            Status::Disconnected => Status::Disconnected,
        }
    }

    pub fn check_input_queue(&mut self, pool: &mut BufferPool, store: &mut ChannelStore) -> (st:
        Status)
        requires
            crate::engine::tick_pre(*old(self), *old(store)),
        ensures
            crate::engine::step_post::<Self>(
                *old(self),
                *final(self),
                *old(pool),
                *final(pool),
                *old(store),
                *final(store),
                st,
            ),
    {
        let node = self.node;
        crate::engine::check_input_queue(self, pool, store, node)
    }

    pub fn flush(&mut self, pool: &mut BufferPool, store: &mut ChannelStore) -> (r: Result<
        usize,
        DatapathError,
    >)
        requires
            crate::engine::flush_pre(*old(self), *old(store)),
        ensures
            crate::engine::flush_post(*old(self), *final(self), *old(store), *final(store), r),
            final(pool)@.len() == old(pool)@.len(),
    {
        let node = self.node;
        crate::engine::flush(self, pool, store, node)
    }

    /// The configuration and the metadata pool are persistent; the password
    /// is transient and re-derived on restore.
    pub fn decompose(self) -> (r: (ResourceCollection, DataPathNode))
        ensures
            r.0.spec_get(ResourceKey::Config) == Some(
                ResourceValue::DecryptServerConfig(self.config),
            ),
            r.0.spec_get(ResourceKey::MetaPool) == Some(ResourceValue::MetaPool(self.meta_buf_pool)),
            r.0.spec_get(ResourceKey::Buffer) is None,
            r.0.spec_get(ResourceKey::OutstandingReqPool) is None,
            r.1 == self.node,
    {
        let mut collections = ResourceCollection::new();
        collections.insert(ResourceKey::Config, ResourceValue::DecryptServerConfig(self.config));
        collections.insert(ResourceKey::MetaPool, ResourceValue::MetaPool(self.meta_buf_pool));
        (collections, self.node)
    }

    /// Rebuilds the stage from its decomposed state: the metadata pool
    /// carries over, so slots held across the upgrade stay reclaimable; the
    /// transient password is re-initialized to the fixed pad.
    pub fn restore(local: ResourceCollection, node: DataPathNode, _prev_version: Version) -> (r:
        Result<DecryptServerEngine, RestoreError>)
        ensures
            r is Ok <==> spec_restorable(local),
            r matches Ok(e) ==> spec_restored(local, node, e),
    {
        let mut local = local;
        let config = match local.remove(ResourceKey::Config) {
            Some(ResourceValue::DecryptServerConfig(c)) => c,
            Some(_) => {
                return Err(RestoreError::MistypedResource);
            },
            None => {
                return Err(RestoreError::MissingResource);
            },
        };
        let meta_buf_pool = match local.remove(ResourceKey::MetaPool) {
            Some(ResourceValue::MetaPool(p)) => p,
            Some(_) => {
                return Err(RestoreError::MistypedResource);
            },
            None => {
                return Err(RestoreError::MissingResource);
            },
        };
        let password = str_bytes_vec("123456abcdefg");
        Ok(DecryptServerEngine { node, indicator: Indicator::new(), config, meta_buf_pool, password })
    }
}

/// The decomposed-state entries a decrypt-stage restore accepts.
pub open spec fn spec_restorable(local: ResourceCollection) -> bool {
    &&& local.spec_get(ResourceKey::Config) matches Some(ResourceValue::DecryptServerConfig(_))
    &&& local.spec_get(ResourceKey::MetaPool) matches Some(ResourceValue::MetaPool(_))
}

/// How a restored decrypt stage relates to its decomposed state: the
/// persisted configuration and metadata pool are exactly the ones stored,
/// the node is re-attached unchanged, and the transient password is
/// re-initialized to the fixed pad.
pub open spec fn spec_restored(
    local: ResourceCollection,
    node: DataPathNode,
    e: DecryptServerEngine,
) -> bool {
    &&& local.spec_get(ResourceKey::Config) == Some(ResourceValue::DecryptServerConfig(e.config))
    &&& local.spec_get(ResourceKey::MetaPool) == Some(ResourceValue::MetaPool(e.meta_buf_pool))
    &&& e.node == node
    &&& e.indicator@ == 0
    &&& e.password@ == crate::crypto::spec_transport_pad()
}

/// Decompose followed immediately by restore (no version change) rebuilds
/// an equivalent stage on the same node: configuration and metadata pool
/// survive; the password, which decompose is specified not to persist, is
/// re-initialized.
pub fn upgrade_in_place(e: DecryptServerEngine, version: Version) -> (r: Result<
    DecryptServerEngine,
    RestoreError,
>)
    ensures
        r matches Ok(e2) && e2.config == e.config && e2.meta_buf_pool == e.meta_buf_pool && e2.node
            == e.node && e2.password@ == crate::crypto::spec_transport_pad(),
{
    let (local, node) = e.decompose();
    DecryptServerEngine::restore(local, node, version)
}

/// Builds a fresh decrypt stage around a wired node.
pub struct DecryptServerEngineBuilder {
    node: DataPathNode,
    config: DecryptServerConfig,
}

impl DecryptServerEngineBuilder {
    pub closed spec fn spec_node(&self) -> DataPathNode {
        self.node
    }

    pub closed spec fn spec_config(&self) -> DecryptServerConfig {
        self.config
    }

    pub fn new(node: DataPathNode, config: DecryptServerConfig) -> (b: DecryptServerEngineBuilder)
        ensures
            b.spec_node() == node,
            b.spec_config() == config,
    {
        DecryptServerEngineBuilder { node, config }
    }

    pub fn build(self) -> (r: Result<DecryptServerEngine, AddonError>)
        ensures
            r matches Ok(e) && e.node == self.spec_node() && e.config == self.spec_config()
                && e.meta_buf_pool@.len() == META_BUF_POOL_CAP && e.indicator@ == 0 && e.password@
                == crate::crypto::spec_transport_pad(),
    {
        Ok(
            DecryptServerEngine {
                node: self.node,
                indicator: Indicator::new(),
                config: self.config,
                meta_buf_pool: MetaBufferPool::new(META_BUF_POOL_CAP),
                password: str_bytes_vec("123456abcdefg"),
            },
        )
    }
}

/// The addon that provides the decrypt stage.
pub struct DecryptServerAddon {
    pub config: DecryptServerConfig,
}

impl DecryptServerAddon {
    pub fn new(config: DecryptServerConfig) -> (a: DecryptServerAddon)
        ensures
            a.config == config,
    {
        DecryptServerAddon { config }
    }

    pub fn engine_type() -> (t: EngineType)
        ensures
            t@ == "DecryptServerEngine"@,
    {
        EngineType::new("DecryptServerEngine")
    }

    pub fn check_compatibility(&self, _prev: Option<&Version>) -> (r: bool)
        ensures
            r,
    {
        true
    }

    pub fn decompose(self) -> (r: ResourceCollection)
        ensures
            r.spec_get(ResourceKey::Config) == Some(
                ResourceValue::DecryptServerConfig(self.config),
            ),
            forall|k: ResourceKey| k != ResourceKey::Config ==> r.spec_get(k) is None,
    {
        let mut collections = ResourceCollection::new();
        collections.insert(ResourceKey::Config, ResourceValue::DecryptServerConfig(self.config));
        collections
    }

    pub fn migrate(&mut self, _prev_addon: DecryptServerAddon)
        ensures
            *final(self) == *old(self),
    {
    }

    pub fn engines(&self) -> (r: Vec<EngineType>)
        ensures
            r@.len() == 1,
            r@[0]@ == "DecryptServerEngine"@,
    {
        let mut v: Vec<EngineType> = Vec::new();
        v.push(DecryptServerAddon::engine_type());
        v
    }

    pub fn update_config(&mut self, config: &str) -> (r: Result<(), ConfigError>)
        ensures
            r is Ok <==> spec_config_accepted(Some(config)),
            r is Ok ==> final(self).config == (DecryptServerConfig {}),
            r is Err ==> *final(self) == *old(self),
    {
        match DecryptServerConfig::new(Some(config)) {
            Ok(c) => {
                self.config = c;
                Ok(())
            },
            Err(e) => Err(e),
        }
    }

    pub fn create_engine(&mut self, ty: &EngineType, node: DataPathNode) -> (r: Result<
        DecryptServerEngine,
        AddonError,
    >)
        ensures
            *final(self) == *old(self),
            r is Ok <==> ty@ == "DecryptServerEngine"@,
            r matches Ok(e) ==> e.node == node && e.config == old(self).config
                && e.meta_buf_pool@.len() == META_BUF_POOL_CAP,
            r matches Err(err) ==> err == AddonError::InvalidEngineType,
    {
        let expected = DecryptServerAddon::engine_type();
        if !(*ty == expected) {
            return Err(AddonError::InvalidEngineType);
        }
        let builder = DecryptServerEngineBuilder::new(node, self.config);
        builder.build()
    }

    pub fn restore_engine(
        &mut self,
        ty: &EngineType,
        local: ResourceCollection,
        node: DataPathNode,
        prev_version: Version,
    ) -> (r: Result<DecryptServerEngine, RestoreError>)
        ensures
            *final(self) == *old(self),
            ty@ != "DecryptServerEngine"@ ==> r == Err::<DecryptServerEngine, RestoreError>(
                RestoreError::WrongEngineType,
            ),
            ty@ == "DecryptServerEngine"@ ==> (r is Ok <==> spec_restorable(local)) && (r matches
                Ok(e) ==> spec_restored(local, node, e)),
    {
        let expected = DecryptServerAddon::engine_type();
        if !(*ty == expected) {
            return Err(RestoreError::WrongEngineType);
        }
        DecryptServerEngine::restore(local, node, prev_version)
    }
}

/// Creates the decrypt addon from an optional configuration document, as
/// the plugin loader does.
pub fn init_addon(config_string: Option<&str>) -> (r: Result<DecryptServerAddon, ConfigError>)
    ensures
        r is Ok <==> spec_config_accepted(config_string),
        r matches Ok(a) ==> a.config == (DecryptServerConfig {}),
{
    let config = match DecryptServerConfig::new(config_string) {
        Ok(c) => c,
        Err(e) => {
            return Err(e);
        },
    };
    Ok(DecryptServerAddon::new(config))
}

} // verus!
