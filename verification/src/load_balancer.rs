//! The load-balancer stage.  As a dataflow citizen it is a pass-through:
//! both directions forward every message unchanged (placement decisions
//! live with the adapter the chain is wired to), so it shows the engine
//! lifecycle contract in its purest form.

use vstd::prelude::*;

use crate::buffer::BufferPool;
use crate::codec::ControlError;
use crate::codec::ControlRequest;
use crate::codec::decode_request;
use crate::codec::spec_decode_request;
use crate::config::ConfigError;
use crate::config::LoadBalancerConfig;
use crate::config::spec_config_accepted;
use crate::engine::DatapathError;
use crate::engine::Indicator;
use crate::engine::Policy;
use crate::engine::RxVerdict;
use crate::engine::Status;
use crate::engine::TxVerdict;
use crate::graph::ChannelStore;
use crate::graph::DataPathNode;
use crate::message::EngineRxMessage;
use crate::message::RpcMessageTx;
use crate::registry::AddonError;
use crate::registry::EngineType;
use crate::storage::ResourceCollection;
use crate::storage::ResourceKey;
use crate::storage::ResourceValue;
use crate::storage::RestoreError;
use crate::storage::Version;

verus! {

/// The load-balancer stage.
pub struct LoadBalancerEngine {
    pub node: DataPathNode,
    pub indicator: Indicator,
    pub config: LoadBalancerConfig,
}

impl Policy for LoadBalancerEngine {
    open spec fn inv(&self) -> bool {
        true
    }

    open spec fn spec_node(&self) -> DataPathNode {
        self.node
    }

    /// Every transmit-path message is forwarded unchanged.
    open spec fn tx_step_rel(
        pre: Self,
        pool0: BufferPool,
        msg: RpcMessageTx,
        post: Self,
        pool1: BufferPool,
        v: TxVerdict,
    ) -> bool {
        &&& post == pre
        &&& pool1 == pool0
        &&& v == TxVerdict::Forward(msg)
    }

    /// Every receive-path event is forwarded unchanged.
    open spec fn rx_step_rel(
        pre: Self,
        pool0: BufferPool,
        msg: EngineRxMessage,
        post: Self,
        pool1: BufferPool,
        v: RxVerdict,
    ) -> bool {
        &&& post == pre
        &&& pool1 == pool0
        &&& v == RxVerdict::Forward(msg)
    }

    fn process_tx(&mut self, pool: &mut BufferPool, msg: RpcMessageTx) -> (v: TxVerdict) {
        TxVerdict::Forward(msg)
    }

    fn process_rx(&mut self, pool: &mut BufferPool, msg: EngineRxMessage) -> (v: RxVerdict) {
        RxVerdict::Forward(msg)
    }
}

impl LoadBalancerEngine {
    pub fn description(&self) -> (r: String)
        ensures
            r@ == "LoadBalancerEngine"@,
    {
        "LoadBalancerEngine".to_owned()
    }

    pub fn tracker(&mut self) -> (t: &mut Indicator)
        ensures
            *t == old(self).indicator,
            final(self).indicator == *final(t),
            final(self).node == old(self).node,
            final(self).config == old(self).config,
    {
        &mut self.indicator
    }

    pub fn handle_request(&mut self, request: &Vec<u8>) -> (r: Result<(), ControlError>)
        ensures
            final(self).node == old(self).node,
            final(self).indicator == old(self).indicator,
            match spec_decode_request(request@) {
                Ok(payload) => if payload.len() == 0 {
                    r is Ok && final(self).config == (LoadBalancerConfig {})
                } else {
                    r == Err::<(), ControlError>(ControlError::BadConfig) && *final(self) == *old(
                        self,
                    )
                },
                Err(e) => r == Err::<(), ControlError>(ControlError::Decode(e)) && *final(self)
                    == *old(self),
            },
    {
        match decode_request(request) {
            Ok(ControlRequest::NewConfig(payload)) => {
                if payload.len() == 0 {
                    self.config = LoadBalancerConfig {};
                    Ok(())
                } else {
                    Err(ControlError::BadConfig)
                }
            },
            Err(e) => Err(ControlError::Decode(e)),
        }
    }

    pub fn activate(&mut self, pool: &mut BufferPool, store: &mut ChannelStore) -> (st: Status)
        requires
            crate::engine::tick_pre(*old(self), *old(store)),
        ensures
            crate::engine::activate_post::<Self>(
                *old(self),
                *final(self),
                *old(pool),
                *final(pool),
                *old(store),
                *final(store),
                st,
            ),
            st matches Status::Progress(w) ==> final(self).indicator@ == w,
    {
        let node = self.node;
        let st = crate::engine::activate(self, pool, store, node);
        match st {
            Status::Progress(w) => {
                self.indicator.set_nwork(w);
                Status::Progress(w)
            },
            Status::Disconnected => Status::Disconnected,
        }
    }

    pub fn check_input_queue(&mut self, pool: &mut BufferPool, store: &mut ChannelStore) -> (st:
        Status)
        requires
            crate::engine::tick_pre(*old(self), *old(store)),
        ensures
            crate::engine::step_post::<Self>(
                *old(self),
                *final(self),
                *old(pool),
                *final(pool),
                *old(store),
                *final(store),
                st,
            ),
    {
        let node = self.node;
        crate::engine::check_input_queue(self, pool, store, node)
    }

    pub fn flush(&mut self, pool: &mut BufferPool, store: &mut ChannelStore) -> (r: Result<
        usize,
        DatapathError,
    >)
        requires
            crate::engine::flush_pre(*old(self), *old(store)),
        ensures
            crate::engine::flush_post(*old(self), *final(self), *old(store), *final(store), r),
            final(pool)@.len() == old(pool)@.len(),
    {
        let node = self.node;
        crate::engine::flush(self, pool, store, node)
    }

    pub fn decompose(self) -> (r: (ResourceCollection, DataPathNode))
        ensures
            r.0.spec_get(ResourceKey::Config) == Some(
                ResourceValue::LoadBalancerConfig(self.config),
            ),
            forall|k: ResourceKey| k != ResourceKey::Config ==> r.0.spec_get(k) is None,
            r.1 == self.node,
    {
        let mut collections = ResourceCollection::new();
        collections.insert(ResourceKey::Config, ResourceValue::LoadBalancerConfig(self.config));
        (collections, self.node)
    }

    pub fn restore(local: ResourceCollection, node: DataPathNode, _prev_version: Version) -> (r:
        Result<LoadBalancerEngine, RestoreError>)
        ensures
            r is Ok <==> spec_restorable(local),
            r matches Ok(e) ==> spec_restored(local, node, e),
    {
        let mut local = local;
        let config = match local.remove(ResourceKey::Config) {
            Some(ResourceValue::LoadBalancerConfig(c)) => c,
            Some(_) => {
                return Err(RestoreError::MistypedResource);
            },
            None => {
                return Err(RestoreError::MissingResource);
            },
        };
        Ok(LoadBalancerEngine { node, indicator: Indicator::new(), config })
    }
}

/// The decomposed-state entry a load-balancer restore accepts.
pub open spec fn spec_restorable(local: ResourceCollection) -> bool {
    local.spec_get(ResourceKey::Config) matches Some(ResourceValue::LoadBalancerConfig(_))
}

/// How a restored load-balancer stage relates to its decomposed state.
pub open spec fn spec_restored(
    local: ResourceCollection,
    node: DataPathNode,
    e: LoadBalancerEngine,
) -> bool {
    &&& local.spec_get(ResourceKey::Config) == Some(ResourceValue::LoadBalancerConfig(e.config))
    &&& e.node == node
    &&& e.indicator@ == 0
}

/// The addon that provides the load-balancer stage.
pub struct LoadBalancerAddon {
    pub config: LoadBalancerConfig,
}

impl LoadBalancerAddon {
    pub fn new(config: LoadBalancerConfig) -> (a: LoadBalancerAddon)
        ensures
            a.config == config,
    {
        LoadBalancerAddon { config }
    }

    pub fn engine_type() -> (t: EngineType)
        ensures
            t@ == "LoadBalancerEngine"@,
    {
        EngineType::new("LoadBalancerEngine")
    }

    pub fn check_compatibility(&self, _prev: Option<&Version>) -> (r: bool)
        ensures
            r,
    {
        true
    }

    pub fn decompose(self) -> (r: ResourceCollection)
        ensures
            r.spec_get(ResourceKey::Config) == Some(
                ResourceValue::LoadBalancerConfig(self.config),
            ),
            forall|k: ResourceKey| k != ResourceKey::Config ==> r.spec_get(k) is None,
    {
        let mut collections = ResourceCollection::new();
        collections.insert(ResourceKey::Config, ResourceValue::LoadBalancerConfig(self.config));
        collections
    }

    pub fn migrate(&mut self, _prev_addon: LoadBalancerAddon)
        ensures
            *final(self) == *old(self),
    {
    }

    pub fn engines(&self) -> (r: Vec<EngineType>)
        ensures
            r@.len() == 1,
            r@[0]@ == "LoadBalancerEngine"@,
    {
        let mut v: Vec<EngineType> = Vec::new();
        v.push(LoadBalancerAddon::engine_type());
        v
    }

    pub fn update_config(&mut self, config: &str) -> (r: Result<(), ConfigError>)
        ensures
            r is Ok <==> spec_config_accepted(Some(config)),
            r is Ok ==> final(self).config == (LoadBalancerConfig {}),
            r is Err ==> *final(self) == *old(self),
    {
        match LoadBalancerConfig::new(Some(config)) {
            Ok(c) => {
                self.config = c;
                Ok(())
            },
            Err(e) => Err(e),
        }
    }

    pub fn create_engine(&mut self, ty: &EngineType, node: DataPathNode) -> (r: Result<
        LoadBalancerEngine,
        AddonError,
    >)
        ensures
            *final(self) == *old(self),
            r is Ok <==> ty@ == "LoadBalancerEngine"@,
            r matches Ok(e) ==> e.node == node && e.config == old(self).config,
            r matches Err(err) ==> err == AddonError::InvalidEngineType,
    {
        let expected = LoadBalancerAddon::engine_type();
        if !(*ty == expected) {
            return Err(AddonError::InvalidEngineType);
        }
        Ok(LoadBalancerEngine { node, indicator: Indicator::new(), config: self.config })
    }

    pub fn restore_engine(
        &mut self,
        ty: &EngineType,
        local: ResourceCollection,
        node: DataPathNode,
        prev_version: Version,
    ) -> (r: Result<LoadBalancerEngine, RestoreError>)
        ensures
            *final(self) == *old(self),
            ty@ != "LoadBalancerEngine"@ ==> r == Err::<LoadBalancerEngine, RestoreError>(
                RestoreError::WrongEngineType,
            ),
            ty@ == "LoadBalancerEngine"@ ==> (r is Ok <==> spec_restorable(local)) && (r matches
                Ok(e) ==> spec_restored(local, node, e)),
    {
        let expected = LoadBalancerAddon::engine_type();
        if !(*ty == expected) {
            return Err(RestoreError::WrongEngineType);
        }
        LoadBalancerEngine::restore(local, node, prev_version)
    }
}

/// Creates the load-balancer addon from an optional configuration document,
/// as the plugin loader does.
pub fn init_addon(config_string: Option<&str>) -> (r: Result<LoadBalancerAddon, ConfigError>)
    ensures
        r is Ok <==> spec_config_accepted(config_string),
        r matches Ok(a) ==> a.config == (LoadBalancerConfig {}),
{
    let config = match LoadBalancerConfig::new(config_string) {
        Ok(c) => c,
        Err(e) => {
            return Err(e);
        },
    };
    Ok(LoadBalancerAddon::new(config))
}

} // verus!
