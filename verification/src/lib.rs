//! A process-local dataflow runtime for RPC pipelines.
//!
//! A pipeline is a chain of engines (processing stages) wired together with
//! bounded message queues.  Each engine drains its transmit-path and
//! receive-path input queues one message at a time, transforming or
//! forwarding every message, under a cooperative scheduler.  Engines can be
//! torn down into a portable resource collection and rebuilt by a newer code
//! version without rewiring the surrounding graph (live upgrade), and
//! payloads cross stage boundaries by pool handle rather than by copy.

pub mod buffer;
pub mod cache;
pub mod cachehack;
pub mod circuitbreaker;
pub mod cm;
pub mod codec;
pub mod config;
pub mod crypto;
pub mod decrypt_server;
pub mod encrypt_client;
pub mod engine;
pub mod graph;
pub mod hello_acl;
pub mod load_balancer;
pub mod message;
pub mod mrpclb;
pub mod msg_bus;
pub mod queue;
pub mod registry;
pub mod runtime;
pub mod state_mgr;
pub mod storage;
