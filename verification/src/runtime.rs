//! The closed set of engine kinds the runtime can drive, and the
//! scheduler's adaptive-polling decision.  Construction stays behind the
//! per-module addons; the union is how one execution context holds and
//! ticks a whole scheduling group.

use vstd::prelude::*;

use crate::buffer::BufferPool;
use crate::cache::CacheEngine;
use crate::codec::spec_decode_request;
use crate::config::CacheConfig;
use crate::config::DecryptServerConfig;
use crate::config::GenencryptclientConfig;
use crate::config::HelloAclSenderConfig;
use crate::config::LoadBalancerConfig;
use crate::config::cachehackConfig;
use crate::config::circuitbreakerConfig;
use crate::cachehack::cachehackEngine;
use crate::circuitbreaker::circuitbreakerEngine;
use crate::codec::ControlError;
use crate::decrypt_server::DecryptServerEngine;
use crate::encrypt_client::EncryptClientEngine;
use crate::engine::Policy;
use crate::engine::Status;
use crate::graph::ChannelStore;
use crate::graph::DataPathNode;
use crate::graph::node_in_store;
use crate::hello_acl::HelloAclSenderEngine;
use crate::load_balancer::LoadBalancerEngine;

verus! {

/// One engine of any kind the runtime knows.
pub enum EngineUnion {
    Cache(CacheEngine),
    Cachehack(cachehackEngine),
    CircuitBreaker(circuitbreakerEngine),
    DecryptServer(DecryptServerEngine),
    EncryptClient(EncryptClientEngine),
    HelloAclSender(HelloAclSenderEngine),
    LoadBalancer(LoadBalancerEngine),
}

/// What replacing the configuration leaves of an engine: the same engine
/// kind with a freshly parsed (field-less) configuration and every other
/// piece of state exactly as it was.
pub open spec fn spec_config_reset(pre: EngineUnion, post: EngineUnion) -> bool {
    match (pre, post) {
        (EngineUnion::Cache(a), EngineUnion::Cache(b)) => {
            &&& b.node == a.node
            &&& b.indicator == a.indicator
            &&& b.meta_pool == a.meta_pool
            &&& b.buffer == a.buffer
            &&& b.config == (CacheConfig {  })
        },
        (EngineUnion::Cachehack(a), EngineUnion::Cachehack(b)) => {
            &&& b.node == a.node
            &&& b.indicator == a.indicator
            &&& b.cache == a.cache
            &&& b.config == (cachehackConfig {  })
        },
        (EngineUnion::CircuitBreaker(a), EngineUnion::CircuitBreaker(b)) => {
            &&& b.node == a.node
            &&& b.indicator == a.indicator
            &&& b.max_concurrent_req == a.max_concurrent_req
            &&& b.pending_req == a.pending_req
            &&& b.drop_count == a.drop_count
            &&& b.config == (circuitbreakerConfig {  })
        },
        (EngineUnion::DecryptServer(a), EngineUnion::DecryptServer(b)) => {
            &&& b.node == a.node
            &&& b.indicator == a.indicator
            &&& b.meta_buf_pool == a.meta_buf_pool
            &&& b.password == a.password
            &&& b.config == (DecryptServerConfig {  })
        },
        (EngineUnion::EncryptClient(a), EngineUnion::EncryptClient(b)) => {
            &&& b.node == a.node
            &&& b.indicator == a.indicator
            &&& b.password == a.password
            &&& b.config == (GenencryptclientConfig {  })
        },
        (EngineUnion::HelloAclSender(a), EngineUnion::HelloAclSender(b)) => {
            &&& b.node == a.node
            &&& b.indicator == a.indicator
            &&& b.outstanding_req_pool == a.outstanding_req_pool
            &&& b.acl_table == a.acl_table
            &&& b.config == (HelloAclSenderConfig {  })
        },
        (EngineUnion::LoadBalancer(a), EngineUnion::LoadBalancer(b)) => {
            &&& b.node == a.node
            &&& b.indicator == a.indicator
            &&& b.config == (LoadBalancerConfig {  })
        },
        _ => false,
    }
}

/// What every engine's out-of-band command handling does with an envelope:
/// a well-formed `NewConfig` whose payload is a valid (empty) configuration
/// replaces the configuration and nothing else; anything else is rejected
/// with the named reason and the engine exactly unchanged.
pub open spec fn spec_command_applied(
    pre: EngineUnion,
    post: EngineUnion,
    request: Seq<u8>,
    r: Result<(), ControlError>,
) -> bool {
    match spec_decode_request(request) {
        Ok(payload) => if payload.len() == 0 {
            r is Ok && spec_config_reset(pre, post)
        } else {
            r == Err::<(), ControlError>(ControlError::BadConfig) && post == pre
        },
        Err(e) => r == Err::<(), ControlError>(ControlError::Decode(e)) && post == pre,
    }
}

impl EngineUnion {
    /// The wrapped engine's internal invariant.
    pub open spec fn inv(&self) -> bool {
        match self {
            EngineUnion::Cache(e) => e.inv(),
            EngineUnion::Cachehack(e) => e.inv(),
            EngineUnion::CircuitBreaker(e) => e.inv(),
            EngineUnion::DecryptServer(e) => e.inv(),
            EngineUnion::EncryptClient(e) => e.inv(),
            EngineUnion::HelloAclSender(e) => e.inv(),
            EngineUnion::LoadBalancer(e) => e.inv(),
        }
    }

    /// The wrapped engine's work indicator.
    pub open spec fn spec_indicator(&self) -> usize {
        match self {
            EngineUnion::Cache(e) => e.indicator@,
            EngineUnion::Cachehack(e) => e.indicator@,
            EngineUnion::CircuitBreaker(e) => e.indicator@,
            EngineUnion::DecryptServer(e) => e.indicator@,
            EngineUnion::EncryptClient(e) => e.indicator@,
            EngineUnion::HelloAclSender(e) => e.indicator@,
            EngineUnion::LoadBalancer(e) => e.indicator@,
        }
    }

    /// The wrapped engine's channel endpoints.
    pub open spec fn spec_node(&self) -> DataPathNode {
        match self {
            EngineUnion::Cache(e) => e.spec_node(),
            EngineUnion::Cachehack(e) => e.spec_node(),
            EngineUnion::CircuitBreaker(e) => e.spec_node(),
            EngineUnion::DecryptServer(e) => e.spec_node(),
            EngineUnion::EncryptClient(e) => e.spec_node(),
            EngineUnion::HelloAclSender(e) => e.spec_node(),
            EngineUnion::LoadBalancer(e) => e.spec_node(),
        }
    }

    /// One cooperative tick of the wrapped engine: inputs serviced until no
    /// local progress remains (or an output lacks room), the work done
    /// recorded in the indicator; `Disconnected` when an adjacent queue was
    /// dropped.
    pub fn activate(&mut self, pool: &mut BufferPool, store: &mut ChannelStore) -> (st: Status)
        requires
            old(self).inv(),
            old(store).wf(),
            node_in_store(old(self).spec_node(), *old(store)),
        ensures
            final(self).inv(),
            final(self).spec_node() == old(self).spec_node(),
            final(store).wf(),
            node_in_store(final(self).spec_node(), *final(store)),
            crate::engine::store_frame(*old(store), *final(store), old(self).spec_node()),
            final(pool)@.len() == old(pool)@.len(),
            match st {
                Status::Progress(w) => final(self).spec_indicator() == w && {
                    ||| !crate::engine::outputs_have_room(*final(store), old(self).spec_node())
                    ||| (crate::engine::txin_view(*final(store), old(self).spec_node()).len() == 0
                        && crate::engine::rxin_view(*final(store), old(self).spec_node()).len()
                        == 0)
                },
                Status::Disconnected => crate::engine::node_disconnected(
                    *final(store),
                    old(self).spec_node(),
                ),
            },
    {
        match self {
            EngineUnion::Cache(e) => e.activate(pool, store),
            EngineUnion::Cachehack(e) => e.activate(pool, store),
            EngineUnion::CircuitBreaker(e) => e.activate(pool, store),
            EngineUnion::DecryptServer(e) => e.activate(pool, store),
            EngineUnion::EncryptClient(e) => e.activate(pool, store),
            EngineUnion::HelloAclSender(e) => e.activate(pool, store),
            EngineUnion::LoadBalancer(e) => e.activate(pool, store),
        }
    }

    /// Delivers an out-of-band command to the wrapped engine: exactly the
    /// shared decode-validate-apply contract every stage has, so a rejected
    /// command never leaves a partial application behind.
    pub fn handle_request(&mut self, request: &Vec<u8>) -> (r: Result<(), ControlError>)
        ensures
            final(self).inv() == old(self).inv(),
            final(self).spec_node() == old(self).spec_node(),
            spec_command_applied(*old(self), *final(self), request@, r),
    {
        match self {
            EngineUnion::Cache(e) => e.handle_request(request),
            EngineUnion::Cachehack(e) => e.handle_request(request),
            EngineUnion::CircuitBreaker(e) => e.handle_request(request),
            EngineUnion::DecryptServer(e) => e.handle_request(request),
            EngineUnion::EncryptClient(e) => e.handle_request(request),
            EngineUnion::HelloAclSender(e) => e.handle_request(request),
            EngineUnion::LoadBalancer(e) => e.handle_request(request),
        }
    }

    /// The wrapped engine's diagnostic identity.
    pub fn description(&self) -> (r: String)
        ensures
            (match self {
                EngineUnion::Cache(_) => r@ == "CacheEngine"@,
                EngineUnion::Cachehack(_) => r@ == "cachehackEngine"@,
                EngineUnion::CircuitBreaker(_) => r@ == "circuitbreakerEngine"@,
                EngineUnion::DecryptServer(_) => r@ == "DecryptServerEngine"@,
                EngineUnion::EncryptClient(_) => r@ == "EncryptClientEngine"@,
                EngineUnion::HelloAclSender(_) => r@ == "HelloAclSenderEngine"@,
                EngineUnion::LoadBalancer(_) => r@ == "LoadBalancerEngine"@,
            }),
    {
        match self {
            EngineUnion::Cache(e) => e.description(),
            EngineUnion::Cachehack(e) => e.description(),
            EngineUnion::CircuitBreaker(e) => e.description(),
            EngineUnion::DecryptServer(e) => e.description(),
            EngineUnion::EncryptClient(e) => e.description(),
            EngineUnion::HelloAclSender(e) => e.description(),
            EngineUnion::LoadBalancer(e) => e.description(),
        }
    }
}

/// How eagerly the scheduler should poll a group next round.
#[derive(Clone, Copy, PartialEq, Eq, Structural, Debug)]
pub enum PollHint {
    /// Recent ticks did work: spin tight.
    Spin,
    /// The group has been quiet: allow longer quiescence.
    Relax,
}

/// The adaptive back-off decision: spin while the last tick reported work or
/// the group has been idle only briefly; otherwise relax.  Advisory only —
/// it never affects what the engines compute.
pub fn poll_hint(last_work: usize, idle_rounds: u64, patience: u64) -> (h: PollHint)
    ensures
        h == (if last_work > 0 || idle_rounds < patience {
            PollHint::Spin
        } else {
            PollHint::Relax
        }),
{
    if last_work > 0 || idle_rounds < patience {
        PollHint::Spin
    } else {
        PollHint::Relax
    }
}

} // verus!
