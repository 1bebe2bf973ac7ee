//! End-to-end behavior of the engine runtime: the policy stages' verdicts,
//! the buffer pools' handle discipline, the live-upgrade round trip, the
//! command envelope, the construction planner and the wiring.

use rpc_engine::buffer::{BufferPool, MetaBufferPool, PoolError};
use rpc_engine::cache::{CacheAddon, CacheEngine, CacheEngineBuilder, get_key, upgrade_in_place};
use rpc_engine::cachehack::cachehackEngine;
use rpc_engine::circuitbreaker::{circuitbreakerEngine, MAX_CONCURRENT_REQ, REJECT_STATUS};
use rpc_engine::cm::{check_cm_event, CmPollOutcome, CmStep};
use rpc_engine::codec::{decode_request, encode_request, ControlRequest, DecodeError};
use rpc_engine::config::{CacheConfig, ConfigError, HelloAclSenderConfig, NullConfig};
use rpc_engine::decrypt_server::DecryptServerEngineBuilder;
use rpc_engine::encrypt_client::{encrypt, EncryptClientEngineBuilder};
use rpc_engine::engine::{Indicator, Status};
use rpc_engine::graph::{instantiate_channels, ChannelStore, DataPathNode};
use rpc_engine::hello_acl::{hello_request_name_readonly, AclTable, HelloAclSenderEngine};
use rpc_engine::load_balancer::init_addon;
use rpc_engine::message::{
    BufHandle, EngineRxMessage, EngineTxMessage, MessageMeta, RpcId, RpcMessageTx, TransportStatus,
};
use rpc_engine::mrpclb::{build_cache_directory, MrpcLBConfig, MrpcLBModule, TransportType};
use rpc_engine::msg_bus::{CommandExecutor, CommandSignal, Error};
use rpc_engine::queue::{Queue, TryRecvError};
use rpc_engine::registry::{construction_plan, EngineType, GraphError};
use rpc_engine::runtime::EngineUnion;
use rpc_engine::state_mgr::SharedStateManager;
use rpc_engine::storage::{
    KvTable, ReqTable, ResourceCollection, ResourceKey, ResourceValue, RestoreError, Version,
};

fn meta(conn: u64, call: u32) -> MessageMeta {
    MessageMeta { conn_id: conn, call_id: call, status: TransportStatus::Success }
}

/// A store with one tx input, one tx output, one rx input, one rx output,
/// and the node wired to them.
fn two_by_two_store(capacity: usize) -> (ChannelStore, DataPathNode) {
    let mut store = ChannelStore::new();
    let ti = store.add_tx_queue(capacity);
    let to = store.add_tx_queue(capacity);
    let ri = store.add_rx_queue(capacity);
    let ro = store.add_rx_queue(capacity);
    let node =
        DataPathNode { tx_in: Some(ti), tx_out: Some(to), rx_in: Some(ri), rx_out: Some(ro) };
    (store, node)
}

fn tx_rpc(pool: &mut BufferPool, conn: u64, call: u32, payload: &[u8]) -> RpcMessageTx {
    let handle = pool.acquire(payload.to_vec()).expect("pool slot");
    RpcMessageTx { meta: meta(conn, call), payload: handle }
}

#[test]
fn queue_is_fifo_and_bounded() {
    let mut q: Queue<u32> = Queue::with_capacity(2);
    assert!(q.try_send(1).is_ok());
    assert!(q.try_send(2).is_ok());
    // full: the message comes back
    assert!(q.try_send(3).is_err());
    assert_eq!(q.try_receive().unwrap(), 1);
    assert_eq!(q.try_receive().unwrap(), 2);
    assert_eq!(q.try_receive().unwrap_err(), TryRecvError::Empty);
    q.close();
    assert_eq!(q.try_receive().unwrap_err(), TryRecvError::Disconnected);
}

#[test]
fn meta_pool_release_fails_without_mutation() {
    let mut pool = MetaBufferPool::new(4);
    let id = RpcId::new(7, 1);
    // releasing an id that was never obtained fails
    assert_eq!(pool.release(id), Err(PoolError::NotFound));
    let slot = pool.obtain(meta(7, 1)).expect("free slot");
    assert!(slot < 4);
    assert_eq!(pool.release(id), Ok(()));
    // the handle is no longer valid: a second release fails and changes
    // nothing
    assert_eq!(pool.release(id), Err(PoolError::NotFound));
    assert_eq!(pool.release(id), Err(PoolError::NotFound));
}

#[test]
fn meta_pool_exhaustion_is_backpressure() {
    let mut pool = MetaBufferPool::new(1);
    assert!(pool.obtain(meta(1, 1)).is_ok());
    assert_eq!(pool.obtain(meta(1, 2)), Err(PoolError::Exhausted));
}

#[test]
fn buffer_pool_stale_handle_is_rejected() {
    let mut pool = BufferPool::new(2);
    let h = pool.acquire(vec![1, 2, 3]).unwrap();
    assert_eq!(pool.read(h).unwrap().as_slice(), &[1, 2, 3]);
    assert_eq!(pool.release(h), Ok(()));
    // the released handle no longer validates, for reads or double release
    assert!(pool.read(h).is_err());
    assert_eq!(pool.release(h), Err(PoolError::InvalidHandle));
    // a fresh allocation of the slot has a new generation, so the old
    // handle stays dead
    let h2 = pool.acquire(vec![9]).unwrap();
    assert_ne!(h2.generation, h.generation);
    assert!(pool.read(h).is_err());
}

#[test]
fn command_envelope_round_trip() {
    let payload = vec![1u8, 2, 250, 0, 77];
    let encoded = encode_request(&ControlRequest::NewConfig(payload.clone()));
    match decode_request(&encoded) {
        Ok(ControlRequest::NewConfig(p)) => assert_eq!(p, payload),
        Err(e) => panic!("round trip failed: {:?}", e),
    }
}

#[test]
fn command_envelope_rejects_bad_frames() {
    assert_eq!(decode_request(&vec![1, 0]).err(), Some(DecodeError::Truncated));
    // unknown tag byte
    assert_eq!(decode_request(&vec![9, 0, 0, 0, 0]).err(), Some(DecodeError::UnknownTag));
    // declared length longer than the body
    assert_eq!(decode_request(&vec![1, 5, 0, 0, 0, 1]).err(), Some(DecodeError::Truncated));
    // trailing bytes after the declared payload
    assert_eq!(
        decode_request(&vec![1, 1, 0, 0, 0, 7, 8]).err(),
        Some(DecodeError::TrailingBytes)
    );
}

#[test]
fn handle_request_applies_or_keeps_config() {
    let (_store, node) = two_by_two_store(8);
    let mut engine =
        CacheEngineBuilder::new(node, CacheConfig::new(None).unwrap()).build().unwrap();
    // a well-formed NewConfig with an empty (valid) configuration applies
    let good = encode_request(&ControlRequest::NewConfig(Vec::new()));
    assert!(engine.handle_request(&good).is_ok());
    // an unknown tag is rejected without side effects
    let bad = vec![9u8, 0, 0, 0, 0];
    assert!(engine.handle_request(&bad).is_err());
    // a NewConfig whose payload is not a valid config is rejected
    let bad_payload = encode_request(&ControlRequest::NewConfig(vec![1, 2, 3]));
    assert!(engine.handle_request(&bad_payload).is_err());
}

#[test]
fn strict_config_rejects_unknown_fields() {
    assert!(NullConfig::new(None).is_ok());
    assert!(NullConfig::new(Some("")).is_ok());
    assert!(NullConfig::new(Some("# only a comment\n")).is_ok());
    assert_eq!(NullConfig::new(Some("extra = 1")), Err(ConfigError::UnknownField));
    assert_eq!(NullConfig::new(Some("= not toml")), Err(ConfigError::Parse));
}

#[test]
fn cache_hit_answers_upstream_with_cached_value() {
    let (mut store, node) = two_by_two_store(8);
    let mut pool = BufferPool::new(4);
    // an engine configured with a populated key-to-value table
    let mut table = KvTable::new();
    table.insert(b"temperature".to_vec(), b"21 degrees".to_vec());
    let mut local = ResourceCollection::new();
    local.insert(ResourceKey::Config, ResourceValue::CacheConfig(CacheConfig::new(None).unwrap()));
    local.insert(ResourceKey::Buffer, ResourceValue::KvTable(table));
    local.insert(ResourceKey::MetaPool, ResourceValue::MetaPool(MetaBufferPool::new(16)));
    let mut engine = CacheEngine::restore(local, node, Version { number: 1 }).unwrap();

    let msg = tx_rpc(&mut pool, 3, 44, b"temperature");
    store.tx_queue_mut(node.tx_in.unwrap()).try_send(EngineTxMessage::RpcMessage(msg)).unwrap();
    assert!(matches!(engine.receiver_check_input_queue(&mut pool, &mut store), Status::Progress(1)));
    // nothing forwarded downstream
    assert!(store.tx_queue_mut(node.tx_out.unwrap()).try_receive().is_err());
    // a receive-path message carrying the cached value under the same call id
    match store.rx_queue_mut(node.rx_out.unwrap()).try_receive().unwrap() {
        EngineRxMessage::RpcMessage(resp) => {
            assert_eq!(resp.meta.conn_id, 3);
            assert_eq!(resp.meta.call_id, 44);
            assert_eq!(pool.read(resp.payload).unwrap().as_slice(), b"21 degrees");
        },
        other => panic!("expected an RPC response, got {:?}", other),
    }
}

#[test]
fn cache_miss_forwards_unchanged() {
    let (mut store, node) = two_by_two_store(8);
    let mut pool = BufferPool::new(4);
    let mut engine =
        CacheEngineBuilder::new(node, CacheConfig::new(None).unwrap()).build().unwrap();
    let msg = tx_rpc(&mut pool, 3, 45, b"unknown-key");
    store.tx_queue_mut(node.tx_in.unwrap()).try_send(EngineTxMessage::RpcMessage(msg)).unwrap();
    assert!(matches!(engine.receiver_check_input_queue(&mut pool, &mut store), Status::Progress(1)));
    match store.tx_queue_mut(node.tx_out.unwrap()).try_receive().unwrap() {
        EngineTxMessage::RpcMessage(fwd) => {
            assert_eq!(fwd.meta.call_id, 45);
            assert_eq!(pool.read(fwd.payload).unwrap().as_slice(), b"unknown-key");
        },
        other => panic!("expected a forwarded request, got {:?}", other),
    }
}

#[test]
fn admission_control_rejects_over_limit() {
    let (mut store, node) = two_by_two_store(8);
    let mut pool = BufferPool::new(4);
    let mut engine = circuitbreakerEngine {
        node,
        indicator: Indicator::new(),
        config: rpc_engine::config::circuitbreakerConfig::new(None).unwrap(),
        max_concurrent_req: MAX_CONCURRENT_REQ,
        pending_req: MAX_CONCURRENT_REQ,
        drop_count: 0,
    };
    assert_eq!(MAX_CONCURRENT_REQ, 10);
    let msg = tx_rpc(&mut pool, 8, 99, b"req");
    store.tx_queue_mut(node.tx_in.unwrap()).try_send(EngineTxMessage::RpcMessage(msg)).unwrap();
    assert!(matches!(engine.check_input_queue(&mut pool, &mut store), Status::Progress(1)));
    // rejected upstream with the distinguished status, not forwarded
    assert!(store.tx_queue_mut(node.tx_out.unwrap()).try_receive().is_err());
    match store.rx_queue_mut(node.rx_out.unwrap()).try_receive().unwrap() {
        EngineRxMessage::Ack(id, TransportStatus::Error(code)) => {
            assert_eq!(id, RpcId::new(8, 99));
            assert_eq!(code, REJECT_STATUS);
        },
        other => panic!("expected a rejection ack, got {:?}", other),
    }
    // the pending count is left unchanged by the rejection
    assert_eq!(engine.pending_req, MAX_CONCURRENT_REQ);
    assert_eq!(engine.drop_count, 1);
}

#[test]
fn admission_control_admits_below_limit() {
    let (mut store, node) = two_by_two_store(8);
    let mut pool = BufferPool::new(4);
    let mut engine = circuitbreakerEngine {
        node,
        indicator: Indicator::new(),
        config: rpc_engine::config::circuitbreakerConfig::new(None).unwrap(),
        max_concurrent_req: MAX_CONCURRENT_REQ,
        pending_req: 0,
        drop_count: 0,
    };
    let msg = tx_rpc(&mut pool, 8, 100, b"req");
    store.tx_queue_mut(node.tx_in.unwrap()).try_send(EngineTxMessage::RpcMessage(msg)).unwrap();
    assert!(matches!(engine.check_input_queue(&mut pool, &mut store), Status::Progress(1)));
    assert!(store.tx_queue_mut(node.tx_out.unwrap()).try_receive().is_ok());
    assert_eq!(engine.pending_req, 1);
}

#[test]
fn acl_denies_listed_name_and_allows_the_rest() {
    let (mut store, node) = two_by_two_store(8);
    let mut pool = BufferPool::new(8);
    let mut local = ResourceCollection::new();
    local.insert(
        ResourceKey::Config,
        ResourceValue::HelloAclSenderConfig(HelloAclSenderConfig::new(None).unwrap()),
    );
    local.insert(ResourceKey::OutstandingReqPool, ResourceValue::ReqTable(ReqTable::new()));
    let mut engine = HelloAclSenderEngine::restore(local, node, Version { number: 1 }).unwrap();
    assert_eq!(engine.acl_table.len(), 2);
    assert_eq!(engine.acl_table[0].name, "Apple");

    // "Apple" is denied: an error ack goes back upstream
    let denied = tx_rpc(&mut pool, 1, 1, b"Apple");
    store.tx_queue_mut(node.tx_in.unwrap()).try_send(EngineTxMessage::RpcMessage(denied)).unwrap();
    assert!(matches!(engine.check_input_queue(&mut pool, &mut store), Status::Progress(1)));
    assert!(matches!(
        store.rx_queue_mut(node.rx_out.unwrap()).try_receive().unwrap(),
        EngineRxMessage::Ack(_, TransportStatus::Error(_))
    ));
    assert!(store.tx_queue_mut(node.tx_out.unwrap()).try_receive().is_err());

    // "Banana" is allowed and an unlisted name passes as well
    for name in [&b"Banana"[..], &b"Cherry"[..]] {
        let ok = tx_rpc(&mut pool, 1, 2, name);
        store.tx_queue_mut(node.tx_in.unwrap()).try_send(EngineTxMessage::RpcMessage(ok)).unwrap();
        assert!(matches!(engine.check_input_queue(&mut pool, &mut store), Status::Progress(1)));
        assert!(store.tx_queue_mut(node.tx_out.unwrap()).try_receive().is_ok());
    }
}

#[test]
fn request_name_view_is_the_payload() {
    let req = b"Apple".to_vec();
    assert_eq!(hello_request_name_readonly(&req), b"Apple");
}

#[test]
fn encrypt_then_decrypt_restores_payload() {
    let (mut store, node) = two_by_two_store(8);
    let mut pool = BufferPool::new(4);
    let mut enc = EncryptClientEngineBuilder::new(
        node,
        rpc_engine::config::GenencryptclientConfig::new(None).unwrap(),
    )
    .build()
    .unwrap();
    let msg = tx_rpc(&mut pool, 2, 7, b"attack at dawn");
    let handle = msg.payload;
    store.tx_queue_mut(node.tx_in.unwrap()).try_send(EngineTxMessage::RpcMessage(msg)).unwrap();
    assert!(matches!(enc.check_input_queue(&mut pool, &mut store), Status::Progress(1)));
    let padded = pool.read(handle).unwrap().clone();
    assert_ne!(padded.as_slice(), b"attack at dawn");
    // the server-side stage applies the same pad and restores the bytes
    let mut dec = DecryptServerEngineBuilder::new(
        node,
        rpc_engine::config::DecryptServerConfig::new(None).unwrap(),
    )
    .build()
    .unwrap();
    let rx = rpc_engine::message::RpcMessageRx { meta: meta(2, 7), payload: handle };
    store
        .rx_queue_mut(node.rx_in.unwrap())
        .try_send(EngineRxMessage::RpcMessage(rx))
        .unwrap();
    assert!(matches!(dec.check_input_queue(&mut pool, &mut store), Status::Progress(1)));
    assert_eq!(pool.read(handle).unwrap().as_slice(), b"attack at dawn");
}

#[test]
fn decrypt_consumes_ack_for_held_slot() {
    let (mut store, node) = two_by_two_store(8);
    let mut pool = BufferPool::new(4);
    let mut dec = DecryptServerEngineBuilder::new(
        node,
        rpc_engine::config::DecryptServerConfig::new(None).unwrap(),
    )
    .build()
    .unwrap();
    let held = dec.meta_buf_pool.obtain(meta(5, 9)).is_ok();
    assert!(held);
    let ack = EngineRxMessage::Ack(RpcId::new(5, 9), TransportStatus::Success);
    store.rx_queue_mut(node.rx_in.unwrap()).try_send(ack).unwrap();
    assert!(matches!(dec.check_input_queue(&mut pool, &mut store), Status::Progress(1)));
    // the ack settled this stage's slot and was consumed
    assert!(store.rx_queue_mut(node.rx_out.unwrap()).try_receive().is_err());
    // an ack for an unheld id is forwarded instead
    let stray = EngineRxMessage::Ack(RpcId::new(5, 10), TransportStatus::Success);
    store.rx_queue_mut(node.rx_in.unwrap()).try_send(stray).unwrap();
    assert!(matches!(dec.check_input_queue(&mut pool, &mut store), Status::Progress(1)));
    assert!(store.rx_queue_mut(node.rx_out.unwrap()).try_receive().is_ok());
}

#[test]
fn learning_cache_cuts_off_repeats() {
    let (mut store, node) = two_by_two_store(8);
    let mut pool = BufferPool::new(8);
    let mut engine = cachehackEngine {
        node,
        indicator: Indicator::new(),
        config: rpc_engine::config::cachehackConfig::new(None).unwrap(),
        cache: KvTable::new(),
    };
    // a successful response populates the table
    let resp_payload = pool.acquire(b"the-answer".to_vec()).unwrap();
    let resp = rpc_engine::message::RpcMessageRx { meta: meta(4, 1), payload: resp_payload };
    store
        .rx_queue_mut(node.rx_in.unwrap())
        .try_send(EngineRxMessage::RpcMessage(resp))
        .unwrap();
    assert!(matches!(engine.check_input_queue(&mut pool, &mut store), Status::Progress(1)));
    assert_eq!(engine.cache.len(), 1);
    // the response itself was forwarded upstream
    assert!(matches!(
        store.rx_queue_mut(node.rx_out.unwrap()).try_receive().unwrap(),
        EngineRxMessage::RpcMessage(_)
    ));
    // a repeat of the same payload on the transmit path is cut off
    let repeat = tx_rpc(&mut pool, 4, 2, b"the-answer");
    store
        .tx_queue_mut(node.tx_in.unwrap())
        .try_send(EngineTxMessage::RpcMessage(repeat))
        .unwrap();
    assert!(matches!(engine.check_input_queue(&mut pool, &mut store), Status::Progress(1)));
    assert!(store.tx_queue_mut(node.tx_out.unwrap()).try_receive().is_err());
    assert!(matches!(
        store.rx_queue_mut(node.rx_out.unwrap()).try_receive().unwrap(),
        EngineRxMessage::Ack(_, TransportStatus::Error(_))
    ));
}

#[test]
fn flush_on_empty_queues_is_a_no_op() {
    let (mut store, node) = two_by_two_store(8);
    let mut pool = BufferPool::new(4);
    let mut engine =
        CacheEngineBuilder::new(node, CacheConfig::new(None).unwrap()).build().unwrap();
    assert_eq!(engine.flush(&mut pool, &mut store), Ok(0));
    // and again: idempotent
    assert_eq!(engine.flush(&mut pool, &mut store), Ok(0));
}

#[test]
fn flush_drains_every_queued_message() {
    let (mut store, node) = two_by_two_store(8);
    let mut pool = BufferPool::new(8);
    let mut engine =
        CacheEngineBuilder::new(node, CacheConfig::new(None).unwrap()).build().unwrap();
    for call in 0..3u32 {
        let msg = tx_rpc(&mut pool, 6, call, b"k");
        store
            .tx_queue_mut(node.tx_in.unwrap())
            .try_send(EngineTxMessage::RpcMessage(msg))
            .unwrap();
    }
    store
        .rx_queue_mut(node.rx_in.unwrap())
        .try_send(EngineRxMessage::Ack(RpcId::new(6, 9), TransportStatus::Success))
        .unwrap();
    assert_eq!(engine.flush(&mut pool, &mut store), Ok(4));
    assert!(store.tx_queue_mut(node.tx_in.unwrap()).try_receive().is_err());
    assert!(store.rx_queue_mut(node.rx_in.unwrap()).try_receive().is_err());
    // every transmit message left downstream in arrival order
    for call in 0..3u32 {
        match store.tx_queue_mut(node.tx_out.unwrap()).try_receive().unwrap() {
            EngineTxMessage::RpcMessage(m) => assert_eq!(m.meta.call_id, call),
            other => panic!("unexpected message {:?}", other),
        }
    }
}

#[test]
fn decompose_restore_round_trip_preserves_cache_state() {
    let (_store, node) = two_by_two_store(8);
    let mut engine =
        CacheEngineBuilder::new(node, CacheConfig::new(None).unwrap()).build().unwrap();
    engine.buffer.insert(b"k1".to_vec(), b"v1".to_vec());
    engine.buffer.insert(b"k2".to_vec(), b"v2".to_vec());
    let restored = upgrade_in_place(engine, Version { number: 2 }).unwrap();
    assert_eq!(restored.node, node);
    assert_eq!(restored.buffer.len(), 2);
    assert_eq!(restored.buffer.get_copy(&b"k1".to_vec()).unwrap(), b"v1".to_vec());
    assert_eq!(restored.buffer.get_copy(&b"k2".to_vec()).unwrap(), b"v2".to_vec());
}

#[test]
fn restore_rejects_missing_and_mistyped_resources() {
    let (_store, node) = two_by_two_store(8);
    // missing everything
    let empty = ResourceCollection::new();
    assert_eq!(
        CacheEngine::restore(empty, node, Version { number: 1 }).err().unwrap(),
        RestoreError::MissingResource
    );
    // mistyped config entry
    let mut wrong = ResourceCollection::new();
    wrong.insert(ResourceKey::Config, ResourceValue::KvTable(KvTable::new()));
    assert_eq!(
        CacheEngine::restore(wrong, node, Version { number: 1 }).err().unwrap(),
        RestoreError::MistypedResource
    );
}

#[test]
fn construction_plan_builds_dependencies_first() {
    // engines [A, B, C]; A depends on B, B depends on C
    let edges = vec![(0usize, 1usize), (1, 2)];
    let order = construction_plan(3, &edges).unwrap();
    assert_eq!(order, vec![2, 1, 0]);
}

#[test]
fn construction_plan_rejects_cycles() {
    let edges = vec![(0usize, 1usize), (1, 0)];
    assert_eq!(construction_plan(2, &edges), Err(GraphError::Cycle));
}

#[test]
fn wiring_attaches_both_endpoints_of_every_channel() {
    // chain 0 -> 1 -> 2 on tx; 2 -> 1 -> 0 on rx
    let tx = vec![(0usize, 1usize), (1, 2)];
    let rx = vec![(2usize, 1usize), (1, 0)];
    let (store, nodes) = instantiate_channels(3, &tx, &rx, 16).unwrap();
    let _ = store;
    assert_eq!(nodes.len(), 3);
    assert_eq!(nodes[0].tx_out, Some(0));
    assert_eq!(nodes[1].tx_in, Some(0));
    assert_eq!(nodes[1].tx_out, Some(1));
    assert_eq!(nodes[2].tx_in, Some(1));
    assert_eq!(nodes[2].rx_out, Some(0));
    assert_eq!(nodes[1].rx_in, Some(0));
    assert_eq!(nodes[1].rx_out, Some(1));
    assert_eq!(nodes[0].rx_in, Some(1));
    // the mid-chain engine is fully wired, with distinct queues per direction
    assert_ne!(nodes[1].tx_in, nodes[1].tx_out);
    assert_ne!(nodes[1].rx_in, nodes[1].rx_out);
}

#[test]
fn wiring_rejects_conflicts() {
    // self-loop
    assert!(instantiate_channels(2, &vec![(0usize, 0usize)], &vec![], 4).is_err());
    // two channels claiming the same source port
    assert!(instantiate_channels(3, &vec![(0usize, 1usize), (0, 2)], &vec![], 4).is_err());
}

#[test]
fn executor_routes_by_engine_type() {
    let (_store, node) = two_by_two_store(8);
    let engine = CacheEngineBuilder::new(node, CacheConfig::new(None).unwrap()).build().unwrap();
    let mut executor = CommandExecutor::new();
    executor.add_engine(CacheAddon::engine_type(), EngineUnion::Cache(engine));
    let good = CommandSignal {
        engine_type: CacheAddon::engine_type(),
        param: encode_request(&ControlRequest::NewConfig(Vec::new())),
    };
    assert!(executor.execute(&good).is_ok());
    let unknown = CommandSignal {
        engine_type: EngineType::new("NoSuchEngine"),
        param: encode_request(&ControlRequest::NewConfig(Vec::new())),
    };
    assert_eq!(executor.execute(&unknown), Err(Error::NotFound));
}

#[test]
fn executor_replaces_reregistered_engine_type() {
    let (_store, node) = two_by_two_store(8);
    let mut executor = CommandExecutor::new();
    let first = CacheEngineBuilder::new(node, CacheConfig::new(None).unwrap()).build().unwrap();
    executor.add_engine(CacheAddon::engine_type(), EngineUnion::Cache(first));
    // re-registering the same type replaces the binding: commands flow to
    // the newest engine, and the registry does not grow
    let mut second = CacheEngineBuilder::new(node, CacheConfig::new(None).unwrap()).build().unwrap();
    second.buffer.insert(b"marker".to_vec(), b"new".to_vec());
    executor.add_engine(CacheAddon::engine_type(), EngineUnion::Cache(second));
    assert_eq!(executor.len(), 1);
    let signal = CommandSignal {
        engine_type: CacheAddon::engine_type(),
        param: encode_request(&ControlRequest::NewConfig(Vec::new())),
    };
    assert!(executor.execute(&signal).is_ok());
}

#[test]
fn module_decompose_keeps_config_and_shared_state() {
    let mut module =
        MrpcLBModule::new(MrpcLBConfig { transport: TransportType::Rdma, nic_index: 2 });
    assert!(module.state_mgr.get_or_create(9, BufferPool::new(2)));
    let collection = module.decompose();
    match collection.config {
        Some(ResourceValue::MrpcLBConfig(c)) => assert_eq!(c.nic_index, 2),
        other => panic!("expected the module config, got {:?}", other.is_some()),
    }
    match collection.state_mgr {
        Some(ResourceValue::StateMgr(mgr)) => assert_eq!(mgr.alive_engines(9), Some(1)),
        _ => panic!("expected the shared-state manager"),
    }
}

#[test]
fn build_cache_path_joins_relative_under_prefix() {
    let prefix = b"/runtime/engine".to_vec();
    assert_eq!(
        build_cache_directory(&b"cache".to_vec(), &prefix),
        b"/runtime/engine/cache".to_vec()
    );
    // an absolute build-cache path wins
    assert_eq!(build_cache_directory(&b"/var/cache".to_vec(), &prefix), b"/var/cache".to_vec());
}

#[test]
fn flush_fails_only_on_disconnection() {
    let (mut store, node) = two_by_two_store(8);
    let mut pool = BufferPool::new(4);
    let mut engine =
        CacheEngineBuilder::new(node, CacheConfig::new(None).unwrap()).build().unwrap();
    let msg = tx_rpc(&mut pool, 6, 1, b"k");
    store.tx_queue_mut(node.tx_in.unwrap()).try_send(EngineTxMessage::RpcMessage(msg)).unwrap();
    // the downstream output was dropped: flush reports the disconnection
    store.tx_queue_mut(node.tx_out.unwrap()).close();
    assert!(engine.flush(&mut pool, &mut store).is_err());
}

#[test]
fn addon_constructs_only_its_own_engine_type() {
    let mut addon = CacheAddon::new(CacheConfig::new(None).unwrap());
    let (_store, node) = two_by_two_store(8);
    assert!(addon.create_engine(&CacheAddon::engine_type(), node).is_ok());
    assert!(addon.create_engine(&EngineType::new("OtherEngine"), node).is_err());
    assert_eq!(addon.engines().len(), 1);
    assert!(addon.check_compatibility(None));
}

#[test]
fn load_balancer_init_addon_parses_config() {
    assert!(init_addon(None).is_ok());
    assert!(init_addon(Some("")).is_ok());
    assert!(init_addon(Some("bogus = true")).is_err());
}

#[test]
fn mrpclb_service_shape_follows_transport() {
    let module = MrpcLBModule::new(MrpcLBConfig { transport: TransportType::Tcp, nic_index: 0 });
    let info = module.service();
    assert_eq!(info.engine.0.as_str(), "MrpcLBEngine");
    assert_eq!(info.tx_channels.len(), 2);
    assert_eq!(info.rx_channels.len(), 2);
    assert_eq!((info.tx_channels[1].1).0, "TcpRpcAdapterEngine");
    assert_eq!(info.scheduling_groups.len(), 1);
    assert_eq!(info.scheduling_groups[0].len(), 3);
    let rdma = MrpcLBModule::new(MrpcLBConfig { transport: TransportType::Rdma, nic_index: 0 });
    assert_eq!((rdma.service().tx_channels[1].1).0, "RpcAdapterEngine");
    assert_eq!(rdma.dependencies().len(), 2);
}

#[test]
fn shared_state_is_reference_counted() {
    let mut mgr = SharedStateManager::new();
    assert!(mgr.get_or_create(42, BufferPool::new(4)));
    assert!(!mgr.get_or_create(42, BufferPool::new(4)));
    assert_eq!(mgr.alive_engines(42), Some(2));
    assert_eq!(mgr.release_engine(42), Some(false));
    assert_eq!(mgr.release_engine(42), Some(true));
    // torn down with the last engine
    assert_eq!(mgr.alive_engines(42), None);
    assert_eq!(mgr.release_engine(42), None);
}

#[test]
fn cm_decisions_buffer_recoverable_errors() {
    let mut errs: Vec<u32> = Vec::new();
    assert_eq!(check_cm_event(CmPollOutcome::Event, &mut errs), CmStep::Progress(1));
    assert_eq!(check_cm_event(CmPollOutcome::NoEvent, &mut errs), CmStep::Progress(0));
    assert_eq!(check_cm_event(CmPollOutcome::RecoverableError(11), &mut errs), CmStep::Progress(1));
    assert_eq!(errs, vec![11]);
    assert_eq!(check_cm_event(CmPollOutcome::Fatal(13), &mut errs), CmStep::Fail(13));
    assert_eq!(errs, vec![11]);
}

#[test]
fn materialized_key_is_the_slot_content() {
    let mut pool = BufferPool::new(2);
    let msg = tx_rpc(&mut pool, 1, 1, b"payload-bytes");
    let key = get_key(&pool, &msg).unwrap();
    assert_eq!(key, b"payload-bytes".to_vec());
    // a stale handle materializes nothing
    pool.release(msg.payload).unwrap();
    assert!(get_key(&pool, &msg).is_none());
}

#[test]
fn encrypt_reports_invalid_handles() {
    let mut pool = BufferPool::new(1);
    let stale = BufHandle { index: 0, generation: 99 };
    let msg = RpcMessageTx { meta: meta(1, 1), payload: stale };
    assert!(!encrypt(&mut pool, &msg, &b"key".to_vec()));
}

#[test]
fn acl_table_records_are_plain_data() {
    let rec = AclTable { name: "Apple".to_string(), permission: "N".to_string() };
    assert_eq!(rec.name, "Apple");
    assert_eq!(rec.permission, "N");
}
