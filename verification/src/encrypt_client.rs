//! The sender-side encryption stage: every outgoing RPC payload is XOR-
//! padded with the stage's password before it is forwarded downstream;
//! receive-path traffic passes through untouched.

use vstd::prelude::*;

use crate::buffer::BufferPool;
use crate::codec::ControlError;
use crate::codec::ControlRequest;
use crate::codec::decode_request;
use crate::codec::spec_decode_request;
use crate::config::ConfigError;
use crate::config::GenencryptclientConfig;
use crate::config::spec_config_accepted;
use crate::crypto::xor_bytes;
use crate::crypto::xor_transform;
use crate::engine::DatapathError;
use crate::engine::Indicator;
use crate::engine::Policy;
use crate::engine::RxVerdict;
use crate::engine::Status;
use crate::engine::TxVerdict;
use crate::graph::ChannelStore;
use crate::graph::DataPathNode;
use crate::message::EngineRxMessage;
use crate::message::RpcMessageTx;
use crate::registry::AddonError;
use crate::registry::EngineType;
use crate::storage::ResourceCollection;
use crate::storage::ResourceKey;
use crate::storage::ResourceValue;
use crate::storage::RestoreError;
use crate::storage::Version;
use crate::storage::str_bytes_vec;

verus! {

/// Applies the stage's pad to a request payload in the pool, in place.
/// This is the sender-side half of the transform; the server-side decrypt
/// stage applies the same pad again to restore the payload.
pub fn encrypt(pool: &mut BufferPool, msg: &RpcMessageTx, key: &Vec<u8>) -> (r: bool)
    ensures
        r == old(pool).valid_handle(msg.payload),
        if r {
            &&& final(pool).valid_handle(msg.payload)
            &&& final(pool).slot_data(msg.payload) == xor_bytes(
                old(pool).slot_data(msg.payload),
                key@,
            )
            &&& forall|j: int|
                0 <= j < old(pool)@.len() && j != msg.payload.index as int ==> final(pool)@[j]
                    == old(pool)@[j]
            &&& final(pool)@.len() == old(pool)@.len()
        } else {
            *final(pool) == *old(pool)
        },
{
    let padded = match pool.read(msg.payload) {
        Ok(d) => xor_transform(d, key),
        Err(_) => {
            return false;
        },
    };
    match pool.write(msg.payload, padded) {
        Ok(()) => true,
        Err(_) => {
            proof {
                assert(false);
            }
            false
        },
    }
}

/// The sender-side encryption stage.
pub struct EncryptClientEngine {
    pub node: DataPathNode,
    pub indicator: Indicator,
    pub config: GenencryptclientConfig,
    pub password: Vec<u8>,
}

impl Policy for EncryptClientEngine {
    open spec fn inv(&self) -> bool {
        true
    }

    open spec fn spec_node(&self) -> DataPathNode {
        self.node
    }

    /// Pads the payload in place and forwards the message under the same
    /// call id and handle; a message whose payload handle no longer
    /// validates is forwarded untouched.
    open spec fn tx_step_rel(
        pre: Self,
        pool0: BufferPool,
        msg: RpcMessageTx,
        post: Self,
        pool1: BufferPool,
        v: TxVerdict,
    ) -> bool {
        &&& post == pre
        &&& v == TxVerdict::Forward(msg)
        &&& if pool0.valid_handle(msg.payload) {
            &&& pool1.slot_data(msg.payload) == xor_bytes(
                pool0.slot_data(msg.payload),
                pre.password@,
            )
            &&& forall|j: int|
                0 <= j < pool0@.len() && j != msg.payload.index as int ==> pool1@[j] == pool0@[j]
        } else {
            pool1 == pool0
        }
    }

    /// Receive-path traffic passes through this stage untouched.
    open spec fn rx_step_rel(
        pre: Self,
        pool0: BufferPool,
        msg: EngineRxMessage,
        post: Self,
        pool1: BufferPool,
        v: RxVerdict,
    ) -> bool {
        &&& post == pre
        &&& pool1 == pool0
        &&& v == RxVerdict::Forward(msg)
    }

    fn process_tx(&mut self, pool: &mut BufferPool, msg: RpcMessageTx) -> (v: TxVerdict) {
        encrypt(pool, &msg, &self.password);
        TxVerdict::Forward(msg)
    }

    fn process_rx(&mut self, pool: &mut BufferPool, msg: EngineRxMessage) -> (v: RxVerdict) {
        RxVerdict::Forward(msg)
    }
}

impl EncryptClientEngine {
    pub fn description(&self) -> (r: String)
        ensures
            r@ == "EncryptClientEngine"@,
    {
        "EncryptClientEngine".to_owned()
    }

    pub fn tracker(&mut self) -> (t: &mut Indicator)
        ensures
            *t == old(self).indicator,
            final(self).indicator == *final(t),
            final(self).node == old(self).node,
            final(self).config == old(self).config,
            final(self).password == old(self).password,
    {
        &mut self.indicator
    }

    /// Applies a `NewConfig` command; a malformed envelope or payload is
    /// rejected with the engine left exactly as it was.
    pub fn handle_request(&mut self, request: &Vec<u8>) -> (r: Result<(), ControlError>)
        ensures
            final(self).node == old(self).node,
            final(self).indicator == old(self).indicator,
            final(self).password == old(self).password,
            match spec_decode_request(request@) {
                Ok(payload) => if payload.len() == 0 {
                    r is Ok && final(self).config == (GenencryptclientConfig {})
                } else {
                    r == Err::<(), ControlError>(ControlError::BadConfig) && *final(self) == *old(
                        self,
                    )
                },
                Err(e) => r == Err::<(), ControlError>(ControlError::Decode(e)) && *final(self)
                    == *old(self),
            },
    {
        match decode_request(request) {
            Ok(ControlRequest::NewConfig(payload)) => {
                if payload.len() == 0 {
                    self.config = GenencryptclientConfig {};
                    Ok(())
                } else {
                    Err(ControlError::BadConfig)
                }
            },
            Err(e) => Err(ControlError::Decode(e)),
        }
    }

    pub fn activate(&mut self, pool: &mut BufferPool, store: &mut ChannelStore) -> (st: Status)
        requires
            crate::engine::tick_pre(*old(self), *old(store)),
        ensures
            crate::engine::activate_post::<Self>(
                *old(self),
                *final(self),
                *old(pool),
                *final(pool),
                *old(store),
                *final(store),
                st,
            ),
            st matches Status::Progress(w) ==> final(self).indicator@ == w,
    {
        let node = self.node;
        let st = crate::engine::activate(self, pool, store, node);
        match st {
            Status::Progress(w) => {
                self.indicator.set_nwork(w);
                Status::Progress(w)
            },
            Status::Disconnected => Status::Disconnected,
        }
    }

    pub fn check_input_queue(&mut self, pool: &mut BufferPool, store: &mut ChannelStore) -> (st:
        Status)
        requires
            crate::engine::tick_pre(*old(self), *old(store)),
        ensures
            crate::engine::step_post::<Self>(
                *old(self),
                *final(self),
                *old(pool),
                *final(pool),
                *old(store),
                *final(store),
                st,
            ),
    {
        let node = self.node;
        crate::engine::check_input_queue(self, pool, store, node)
    }

    pub fn flush(&mut self, pool: &mut BufferPool, store: &mut ChannelStore) -> (r: Result<
        usize,
        DatapathError,
    >)
        requires
            crate::engine::flush_pre(*old(self), *old(store)),
        ensures
            crate::engine::flush_post(*old(self), *final(self), *old(store), *final(store), r),
            final(pool)@.len() == old(pool)@.len(),
    {
        let node = self.node;
        crate::engine::flush(self, pool, store, node)
    }

    /// Only the configuration is persistent; the password is transient and
    /// re-derived on restore.
    pub fn decompose(self) -> (r: (ResourceCollection, DataPathNode))
        ensures
            r.0.spec_get(ResourceKey::Config) == Some(
                ResourceValue::EncryptClientConfig(self.config),
            ),
            forall|k: ResourceKey| k != ResourceKey::Config ==> r.0.spec_get(k) is None,
            r.1 == self.node,
    {
        let mut collections = ResourceCollection::new();
        collections.insert(ResourceKey::Config, ResourceValue::EncryptClientConfig(self.config));
        (collections, self.node)
    }

    /// Rebuilds the stage from its decomposed state, re-attached to the
    /// same node, with the transient password re-initialized to the fixed
    /// pad of this code version.
    pub fn restore(local: ResourceCollection, node: DataPathNode, _prev_version: Version) -> (r:
        Result<EncryptClientEngine, RestoreError>)
        ensures
            r is Ok <==> spec_restorable(local),
            r matches Ok(e) ==> spec_restored(local, node, e),
    {
        let mut local = local;
        let config = match local.remove(ResourceKey::Config) {
            Some(ResourceValue::EncryptClientConfig(c)) => c,
            Some(_) => {
                return Err(RestoreError::MistypedResource);
            },
            None => {
                return Err(RestoreError::MissingResource);
            },
        };
        let password = str_bytes_vec("123456abcdefg");
        Ok(EncryptClientEngine { node, indicator: Indicator::new(), config, password })
    }
}

/// The decomposed-state entry an encryption-stage restore accepts.
pub open spec fn spec_restorable(local: ResourceCollection) -> bool {
    local.spec_get(ResourceKey::Config) matches Some(ResourceValue::EncryptClientConfig(_))
}

/// How a restored encryption stage relates to its decomposed state: the
/// persisted configuration is the one stored, the node is re-attached
/// unchanged, and the transient password is re-initialized to the fixed pad.
pub open spec fn spec_restored(
    local: ResourceCollection,
    node: DataPathNode,
    e: EncryptClientEngine,
) -> bool {
    &&& local.spec_get(ResourceKey::Config) == Some(ResourceValue::EncryptClientConfig(e.config))
    &&& e.node == node
    &&& e.indicator@ == 0
    &&& e.password@ == crate::crypto::spec_transport_pad()
}

/// Builds a fresh encryption stage around a wired node.
pub struct EncryptClientEngineBuilder {
    node: DataPathNode,
    config: GenencryptclientConfig,
}

impl EncryptClientEngineBuilder {
    pub closed spec fn spec_node(&self) -> DataPathNode {
        self.node
    }

    pub closed spec fn spec_config(&self) -> GenencryptclientConfig {
        self.config
    }

    pub fn new(node: DataPathNode, config: GenencryptclientConfig) -> (b:
        EncryptClientEngineBuilder)
        ensures
            b.spec_node() == node,
            b.spec_config() == config,
    {
        EncryptClientEngineBuilder { node, config }
    }

    pub fn build(self) -> (r: Result<EncryptClientEngine, AddonError>)
        ensures
            r matches Ok(e) && e.node == self.spec_node() && e.config == self.spec_config()
                && e.indicator@ == 0 && e.password@ == crate::crypto::spec_transport_pad(),
    {
        Ok(
            EncryptClientEngine {
                node: self.node,
                indicator: Indicator::new(),
                config: self.config,
                password: str_bytes_vec("123456abcdefg"),
            },
        )
    }
}

/// The addon that provides the encryption stage.
pub struct EncryptClientAddon {
    pub config: GenencryptclientConfig,
}

impl EncryptClientAddon {
    pub fn new(config: GenencryptclientConfig) -> (a: EncryptClientAddon)
        ensures
            a.config == config,
    {
        EncryptClientAddon { config }
    }

    pub fn engine_type() -> (t: EngineType)
        ensures
            t@ == "EncryptClientEngine"@,
    {
        EngineType::new("EncryptClientEngine")
    }

    pub fn check_compatibility(&self, _prev: Option<&Version>) -> (r: bool)
        ensures
            r,
    {
        true
    }

    pub fn decompose(self) -> (r: ResourceCollection)
        ensures
            r.spec_get(ResourceKey::Config) == Some(
                ResourceValue::EncryptClientConfig(self.config),
            ),
            forall|k: ResourceKey| k != ResourceKey::Config ==> r.spec_get(k) is None,
    {
        let mut collections = ResourceCollection::new();
        collections.insert(ResourceKey::Config, ResourceValue::EncryptClientConfig(self.config));
        collections
    }

    pub fn migrate(&mut self, _prev_addon: EncryptClientAddon)
        ensures
            *final(self) == *old(self),
    {
    }

    pub fn engines(&self) -> (r: Vec<EngineType>)
        ensures
            r@.len() == 1,
            r@[0]@ == "EncryptClientEngine"@,
    {
        let mut v: Vec<EngineType> = Vec::new();
        v.push(EncryptClientAddon::engine_type());
        v
    }

    pub fn update_config(&mut self, config: &str) -> (r: Result<(), ConfigError>)
        ensures
            r is Ok <==> spec_config_accepted(Some(config)),
            r is Ok ==> final(self).config == (GenencryptclientConfig {}),
            r is Err ==> *final(self) == *old(self),
    {
        match GenencryptclientConfig::new(Some(config)) {
            Ok(c) => {
                self.config = c;
                Ok(())
            },
            Err(e) => Err(e),
        }
    }

    pub fn create_engine(&mut self, ty: &EngineType, node: DataPathNode) -> (r: Result<
        EncryptClientEngine,
        AddonError,
    >)
        ensures
            *final(self) == *old(self),
            r is Ok <==> ty@ == "EncryptClientEngine"@,
            r matches Ok(e) ==> e.node == node && e.config == old(self).config,
            r matches Err(err) ==> err == AddonError::InvalidEngineType,
    {
        let expected = EncryptClientAddon::engine_type();
        if !(*ty == expected) {
            return Err(AddonError::InvalidEngineType);
        }
        let builder = EncryptClientEngineBuilder::new(node, self.config);
        builder.build()
    }

    pub fn restore_engine(
        &mut self,
        ty: &EngineType,
        local: ResourceCollection,
        node: DataPathNode,
        prev_version: Version,
    ) -> (r: Result<EncryptClientEngine, RestoreError>)
        ensures
            *final(self) == *old(self),
            ty@ != "EncryptClientEngine"@ ==> r == Err::<EncryptClientEngine, RestoreError>(
                RestoreError::WrongEngineType,
            ),
            ty@ == "EncryptClientEngine"@ ==> (r is Ok <==> spec_restorable(local)) && (r matches
                Ok(e) ==> spec_restored(local, node, e)),
    {
        let expected = EncryptClientAddon::engine_type();
        if !(*ty == expected) {
            return Err(RestoreError::WrongEngineType);
        }
        EncryptClientEngine::restore(local, node, prev_version)
    }
}

} // verus!
