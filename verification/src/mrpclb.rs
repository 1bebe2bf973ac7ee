//! The entry module of the load-balanced RPC service: it declares the
//! engine chain (entry engine, load balancer, transport adapter), the
//! dependency edges and channel descriptors that realize it for either
//! transport, and the decisions its service-construction path makes on
//! plain values.  The handshake socket, the shared-memory customer stub and
//! the per-instance socket naming are I/O and live with the runtime shell.

use vstd::prelude::*;

use crate::registry::ChannelDescriptor;
use crate::registry::EnginePair;
use crate::registry::EngineType;
use crate::registry::Service;
use crate::registry::ServiceInfo;
use crate::state_mgr::SharedStateManager;
use crate::storage::ResourceCollection;
use crate::storage::ResourceKey;
use crate::storage::ResourceValue;
use crate::storage::Version;
use crate::storage::bytes_copy;

verus! {

/// Which wire transport carries the service's traffic.
#[derive(Clone, Copy, PartialEq, Eq, Structural, Debug)]
pub enum TransportType {
    Tcp,
    Rdma,
}

/// Configuration of the load-balanced RPC service module.
#[derive(Clone, Copy, PartialEq, Eq, Structural, Debug)]
pub struct MrpcLBConfig {
    pub transport: TransportType,
    pub nic_index: u32,
}

/// The per-connection settings a client may supply at accept time; absent
/// fields fall back to the module's configuration.
#[derive(Clone, Copy, PartialEq, Eq, Structural, Debug)]
pub struct Setting {
    pub transport: TransportType,
    pub nic_index: u32,
}

/// The transport adapter an engine chain ends in, by transport.
pub fn adapter_engine_type(transport: TransportType) -> (t: EngineType)
    ensures
        (match transport {
            TransportType::Tcp => t@ == "TcpRpcAdapterEngine"@,
            TransportType::Rdma => t@ == "RpcAdapterEngine"@,
        }),
{
    match transport {
        TransportType::Tcp => EngineType::new("TcpRpcAdapterEngine"),
        TransportType::Rdma => EngineType::new("RpcAdapterEngine"),
    }
}

/// An explicit per-connection setting wins; otherwise the module's
/// configuration decides.
pub fn resolve_setting(explicit: Option<Setting>, config: &MrpcLBConfig) -> (s: Setting)
    ensures
        s == (match explicit {
            Some(e) => e,
            None => Setting { transport: config.transport, nic_index: config.nic_index },
        }),
{
    match explicit {
        Some(e) => e,
        None => Setting { transport: config.transport, nic_index: config.nic_index },
    }
}

/// The byte separating path segments.
pub const PATH_SEP: u8 = 47;

/// The directory the serializer build cache lives in: the configured cache
/// path itself when it is absolute, otherwise that path joined under the
/// engine's prefix.  Paths are byte strings here; the runtime shell turns
/// them into filesystem paths.
pub fn build_cache_directory(build_cache: &Vec<u8>, engine_prefix: &Vec<u8>) -> (r: Vec<u8>)
    ensures
        r@ == (if build_cache@.len() > 0 && build_cache@[0] == PATH_SEP {
            build_cache@
        } else {
            engine_prefix@ + seq![PATH_SEP] + build_cache@
        }),
{
    if build_cache.len() > 0 && build_cache[0] == PATH_SEP {
        return bytes_copy(build_cache);
    }
    let mut out = bytes_copy(engine_prefix);
    out.push(PATH_SEP);
    let n = build_cache.len();
    let mut k: usize = 0;
    while k < n
        invariant
            k <= n,
            n == build_cache@.len(),
            out@ == engine_prefix@ + seq![PATH_SEP] + build_cache@.subrange(0, k as int),
        decreases n - k,
    {
        out.push(build_cache[k]);
        proof {
            assert(build_cache@.subrange(0, k + 1 as int) =~= build_cache@.subrange(
                0,
                k as int,
            ).push(build_cache@[k as int]));
            assert(out@ =~= engine_prefix@ + seq![PATH_SEP] + build_cache@.subrange(
                0,
                k + 1 as int,
            ));
        }
        k = k + 1;
    }
    proof {
        assert(build_cache@.subrange(0, n as int) =~= build_cache@);
    }
    out
}

/// The entry module of the load-balanced RPC service.
pub struct MrpcLBModule {
    pub config: MrpcLBConfig,
    pub state_mgr: SharedStateManager,
}

impl MrpcLBModule {
    pub fn new(config: MrpcLBConfig) -> (m: MrpcLBModule)
        ensures
            m.config == config,
            m.state_mgr@.len() == 0,
    {
        MrpcLBModule { config, state_mgr: SharedStateManager::new() }
    }

    pub fn entry_engine_type() -> (t: EngineType)
        ensures
            t@ == "MrpcLBEngine"@,
    {
        EngineType::new("MrpcLBEngine")
    }

    /// The engine types this module constructs itself.
    pub fn engines(&self) -> (r: Vec<EngineType>)
        ensures
            r@.len() == 1,
            r@[0]@ == "MrpcLBEngine"@,
    {
        let mut v: Vec<EngineType> = Vec::new();
        v.push(MrpcLBModule::entry_engine_type());
        v
    }

    /// The dependency edges of the chain for the configured transport: the
    /// entry engine depends on the load balancer, which depends on the
    /// transport adapter — so the adapter is constructed first.
    pub fn dependencies(&self) -> (r: Vec<EnginePair>)
        ensures
            r@.len() == 2,
            r@[0].0@ == "MrpcLBEngine"@,
            r@[0].1@ == "LoadBalancerEngine"@,
            r@[1].0@ == "LoadBalancerEngine"@,
            (match self.config.transport {
                TransportType::Tcp => r@[1].1@ == "TcpRpcAdapterEngine"@,
                TransportType::Rdma => r@[1].1@ == "RpcAdapterEngine"@,
            }),
    {
        let mut v: Vec<EnginePair> = Vec::new();
        v.push(
            EnginePair(MrpcLBModule::entry_engine_type(), EngineType::new("LoadBalancerEngine")),
        );
        v.push(
            EnginePair(EngineType::new("LoadBalancerEngine"), adapter_engine_type(self.config.transport)),
        );
        v
    }

    /// The composed service: transmit-path channels run entry to adapter,
    /// receive-path channels run adapter to entry, and the whole chain is
    /// one scheduling group.
    pub fn service(&self) -> (r: ServiceInfo)
        ensures
            r.service.0@ == "MrpcLB"@,
            r.engine@ == "MrpcLBEngine"@,
            r.tx_channels@.len() == 2,
            r.rx_channels@.len() == 2,
            r.scheduling_groups@.len() == 1,
            r.scheduling_groups@[0]@.len() == 3,
            r.scheduling_groups@[0]@[0]@ == "MrpcLBEngine"@,
            r.scheduling_groups@[0]@[1]@ == "LoadBalancerEngine"@,
            (match self.config.transport {
                TransportType::Tcp => r.scheduling_groups@[0]@[2]@ == "TcpRpcAdapterEngine"@,
                TransportType::Rdma => r.scheduling_groups@[0]@[2]@ == "RpcAdapterEngine"@,
            }),
            r.tx_channels@[0].0@ == "MrpcLBEngine"@,
            r.tx_channels@[0].1@ == "LoadBalancerEngine"@,
            r.tx_channels@[1].0@ == "LoadBalancerEngine"@,
            r.rx_channels@[1].0@ == "LoadBalancerEngine"@,
            r.rx_channels@[1].1@ == "MrpcLBEngine"@,
            r.rx_channels@[0].1@ == "LoadBalancerEngine"@,
            (match self.config.transport {
                TransportType::Tcp => r.tx_channels@[1].1@ == "TcpRpcAdapterEngine"@
                    && r.rx_channels@[0].0@ == "TcpRpcAdapterEngine"@,
                TransportType::Rdma => r.tx_channels@[1].1@ == "RpcAdapterEngine"@
                    && r.rx_channels@[0].0@ == "RpcAdapterEngine"@,
            }),
            forall|k: int|
                0 <= k < 2 ==> (#[trigger] r.tx_channels@[k]).2 == 0 && r.tx_channels@[k].3 == 0
                    && r.rx_channels@[k].2 == 0 && r.rx_channels@[k].3 == 0,
    {
        let adapter = adapter_engine_type(self.config.transport);
        let lb = EngineType::new("LoadBalancerEngine");
        let entry = MrpcLBModule::entry_engine_type();
        let mut tx_channels: Vec<ChannelDescriptor> = Vec::new();
        tx_channels.push(ChannelDescriptor(MrpcLBModule::entry_engine_type(), lb.clone(), 0, 0));
        tx_channels.push(ChannelDescriptor(lb.clone(), adapter.clone(), 0, 0));
        let mut rx_channels: Vec<ChannelDescriptor> = Vec::new();
        rx_channels.push(ChannelDescriptor(adapter.clone(), lb.clone(), 0, 0));
        rx_channels.push(ChannelDescriptor(lb.clone(), MrpcLBModule::entry_engine_type(), 0, 0));
        let mut group: Vec<EngineType> = Vec::new();
        group.push(entry);
        group.push(lb);
        group.push(adapter);
        let mut scheduling_groups: Vec<Vec<EngineType>> = Vec::new();
        scheduling_groups.push(group);
        ServiceInfo {
            service: Service("MrpcLB".to_owned()),
            engine: MrpcLBModule::entry_engine_type(),
            tx_channels,
            rx_channels,
            scheduling_groups,
        }
    }

    /// Every predecessor version's persisted state is acceptable.
    pub fn check_compatibility(&self, _prev: Option<&Version>) -> (r: bool)
        ensures
            r,
    {
        true
    }

    /// The module's own persistent state: its configuration and the
    /// pid-keyed shared-state manager, each under its stable key.
    pub fn decompose(self) -> (r: ResourceCollection)
        ensures
            r.spec_get(ResourceKey::Config) == Some(ResourceValue::MrpcLBConfig(self.config)),
            r.spec_get(ResourceKey::StateMgr) == Some(ResourceValue::StateMgr(self.state_mgr)),
            r.spec_get(ResourceKey::Buffer) is None,
            r.spec_get(ResourceKey::MetaPool) is None,
            r.spec_get(ResourceKey::OutstandingReqPool) is None,
    {
        let mut collections = ResourceCollection::new();
        collections.insert(ResourceKey::Config, ResourceValue::MrpcLBConfig(self.config));
        collections.insert(ResourceKey::StateMgr, ResourceValue::StateMgr(self.state_mgr));
        collections
    }

    /// A newly loaded module version inherits its predecessor's pid-keyed
    /// shared state, so existing connections survive the reload.
    pub fn migrate(&mut self, prev_module: MrpcLBModule)
        ensures
            final(self).state_mgr == prev_module.state_mgr,
            final(self).config == old(self).config,
    {
        self.state_mgr = prev_module.state_mgr;
    }
}

} // verus!
