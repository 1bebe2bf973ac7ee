//! The sender-side access-control stage: each transmit-path request's name
//! is matched against an ACL.  The first record whose name equals the
//! request's name decides: a deny record answers the request upstream with
//! an error acknowledgment and forwards nothing; an allow record — or no
//! record at all — lets the request through unchanged.  Receive-path
//! traffic passes through untouched.

use vstd::prelude::*;
use vstd::utf8::encode_utf8;

use crate::buffer::BufferPool;
use crate::codec::ControlError;
use crate::codec::ControlRequest;
use crate::codec::decode_request;
use crate::codec::spec_decode_request;
use crate::config::HelloAclSenderConfig;
use crate::engine::DatapathError;
use crate::engine::Indicator;
use crate::engine::Policy;
use crate::engine::RxVerdict;
use crate::engine::Status;
use crate::engine::TxVerdict;
use crate::graph::ChannelStore;
use crate::graph::DataPathNode;
use crate::message::EngineRxMessage;
use crate::message::RpcId;
use crate::message::RpcMessageTx;
use crate::message::TransportStatus;
use crate::storage::ReqTable;
use crate::storage::ResourceCollection;
use crate::storage::ResourceKey;
use crate::storage::ResourceValue;
use crate::storage::RestoreError;
use crate::storage::Version;
use crate::storage::bytes_copy;
use crate::storage::bytes_eq;
use crate::storage::str_bytes_vec;

verus! {

/// The status code carried by a denial acknowledgment.
pub const DENY_STATUS: u32 = 403;

/// The UTF-8 byte of the deny mark, the letter `N`.
pub const DENY_MARK: u8 = 78;

/// One access-control record: a principal name and its permission
/// (the single letter `N` denies; anything else allows).
pub struct AclTable {
    pub name: String,
    pub permission: String,
}

/// Whether a record denies.
pub open spec fn spec_is_deny(rec: AclTable) -> bool {
    encode_utf8(rec.permission@) == seq![DENY_MARK]
}

/// The verdict of the first record whose name matches: `true` means deny.
/// No matching record means allow.
pub open spec fn spec_acl_denies(table: Seq<AclTable>, name: Seq<u8>) -> bool
    decreases table.len(),
{
    if table.len() == 0 {
        false
    } else if encode_utf8(table[0].name@) == name {
        spec_is_deny(table[0])
    } else {
        spec_acl_denies(table.drop_first(), name)
    }
}

/// The request name carried by a materialized request payload.
pub fn hello_request_name_readonly(req: &Vec<u8>) -> (r: &[u8])
    ensures
        r@ == req@,
{
    req.as_slice()
}

/// Copies the request payload out of the pool (the bounds-checked
/// counterpart of reinterpreting the backend address).
pub fn materialize(pool: &BufferPool, msg: &RpcMessageTx) -> (r: Option<Vec<u8>>)
    ensures
        match r {
            Some(d) => pool.valid_handle(msg.payload) && d@ == pool.slot_data(msg.payload),
            None => !pool.valid_handle(msg.payload),
        },
{
    match pool.read(msg.payload) {
        Ok(d) => Some(bytes_copy(d)),
        Err(_) => None,
    }
}

/// Whether a record denies, decided on its permission bytes.
fn is_deny(rec: &AclTable) -> (r: bool)
    ensures
        r == spec_is_deny(*rec),
{
    let perm = str_bytes_vec(rec.permission.as_str());
    let mut deny_mark: Vec<u8> = Vec::new();
    deny_mark.push(DENY_MARK);
    proof {
        assert(deny_mark@ =~= seq![DENY_MARK]);
    }
    bytes_eq(&perm, &deny_mark)
}

/// First-match lookup of a name against the table.
fn acl_denies(table: &Vec<AclTable>, name: &Vec<u8>) -> (r: bool)
    ensures
        r == spec_acl_denies(table@, name@),
{
    let n = table.len();
    let mut k: usize = 0;
    proof {
        assert(table@.skip(0) =~= table@);
    }
    while k < n
        invariant
            k <= n,
            n == table@.len(),
            spec_acl_denies(table@, name@) == spec_acl_denies(table@.skip(k as int), name@),
        decreases n - k,
    {
        let rec_name = str_bytes_vec(table[k].name.as_str());
        proof {
            assert(table@.skip(k as int)[0] == table@[k as int]);
            assert(table@.skip(k as int).drop_first() =~= table@.skip(k + 1 as int));
        }
        if bytes_eq(&rec_name, name) {
            return is_deny(&table[k]);
        }
        k = k + 1;
    }
    proof {
        assert(table@.skip(n as int) =~= Seq::<AclTable>::empty());
    }
    false
}

/// The access-control stage.
pub struct HelloAclSenderEngine {
    pub node: DataPathNode,
    pub indicator: Indicator,
    pub outstanding_req_pool: ReqTable,
    pub config: HelloAclSenderConfig,
    pub acl_table: Vec<AclTable>,
}

impl Policy for HelloAclSenderEngine {
    open spec fn inv(&self) -> bool {
        true
    }

    open spec fn spec_node(&self) -> DataPathNode {
        self.node
    }

    /// A denied name is answered with an error acknowledgment under the
    /// request's own call id and nothing is forwarded; an allowed or
    /// unlisted name — or an invalid payload handle — passes through
    /// unchanged.
    open spec fn tx_step_rel(
        pre: Self,
        pool0: BufferPool,
        msg: RpcMessageTx,
        post: Self,
        pool1: BufferPool,
        v: TxVerdict,
    ) -> bool {
        &&& post == pre
        &&& pool1 == pool0
        &&& if pool0.valid_handle(msg.payload) && spec_acl_denies(
            pre.acl_table@,
            pool0.slot_data(msg.payload),
        ) {
            v == TxVerdict::Respond(
                EngineRxMessage::Ack(msg.meta.spec_rpc_id(), TransportStatus::Error(DENY_STATUS)),
            )
        } else {
            v == TxVerdict::Forward(msg)
        }
    }

    /// Receive-path traffic passes through this stage untouched.
    open spec fn rx_step_rel(
        pre: Self,
        pool0: BufferPool,
        msg: EngineRxMessage,
        post: Self,
        pool1: BufferPool,
        v: RxVerdict,
    ) -> bool {
        &&& post == pre
        &&& pool1 == pool0
        &&& v == RxVerdict::Forward(msg)
    }

    fn process_tx(&mut self, pool: &mut BufferPool, msg: RpcMessageTx) -> (v: TxVerdict) {
        match materialize(pool, &msg) {
            Some(name) => {
                if acl_denies(&self.acl_table, &name) {
                    TxVerdict::Respond(
                        EngineRxMessage::Ack(
                            RpcId::new(msg.meta.conn_id, msg.meta.call_id),
                            TransportStatus::Error(DENY_STATUS),
                        ),
                    )
                } else {
                    TxVerdict::Forward(msg)
                }
            },
            None => TxVerdict::Forward(msg),
        }
    }

    fn process_rx(&mut self, pool: &mut BufferPool, msg: EngineRxMessage) -> (v: RxVerdict) {
        RxVerdict::Forward(msg)
    }
}

impl HelloAclSenderEngine {
    pub fn description(&self) -> (r: String)
        ensures
            r@ == "HelloAclSenderEngine"@,
    {
        "HelloAclSenderEngine".to_owned()
    }

    pub fn tracker(&mut self) -> (t: &mut Indicator)
        ensures
            *t == old(self).indicator,
            final(self).indicator == *final(t),
            final(self).node == old(self).node,
            final(self).config == old(self).config,
            final(self).outstanding_req_pool == old(self).outstanding_req_pool,
            final(self).acl_table == old(self).acl_table,
    {
        &mut self.indicator
    }

    pub fn handle_request(&mut self, request: &Vec<u8>) -> (r: Result<(), ControlError>)
        ensures
            final(self).node == old(self).node,
            final(self).indicator == old(self).indicator,
            final(self).outstanding_req_pool == old(self).outstanding_req_pool,
            final(self).acl_table == old(self).acl_table,
            match spec_decode_request(request@) {
                Ok(payload) => if payload.len() == 0 {
                    r is Ok && final(self).config == (HelloAclSenderConfig {})
                } else {
                    r == Err::<(), ControlError>(ControlError::BadConfig) && *final(self) == *old(
                        self,
                    )
                },
                Err(e) => r == Err::<(), ControlError>(ControlError::Decode(e)) && *final(self)
                    == *old(self),
            },
    {
        match decode_request(request) {
            Ok(ControlRequest::NewConfig(payload)) => {
                if payload.len() == 0 {
                    self.config = HelloAclSenderConfig {};
                    Ok(())
                } else {
                    Err(ControlError::BadConfig)
                }
            },
            Err(e) => Err(ControlError::Decode(e)),
        }
    }

    pub fn activate(&mut self, pool: &mut BufferPool, store: &mut ChannelStore) -> (st: Status)
        requires
            crate::engine::tick_pre(*old(self), *old(store)),
        ensures
            crate::engine::activate_post::<Self>(
                *old(self),
                *final(self),
                *old(pool),
                *final(pool),
                *old(store),
                *final(store),
                st,
            ),
            st matches Status::Progress(w) ==> final(self).indicator@ == w,
    {
        let node = self.node;
        let st = crate::engine::activate(self, pool, store, node);
        match st {
            Status::Progress(w) => {
                self.indicator.set_nwork(w);
                Status::Progress(w)
            },
            Status::Disconnected => Status::Disconnected,
        }
    }

    pub fn check_input_queue(&mut self, pool: &mut BufferPool, store: &mut ChannelStore) -> (st:
        Status)
        requires
            crate::engine::tick_pre(*old(self), *old(store)),
        ensures
            crate::engine::step_post::<Self>(
                *old(self),
                *final(self),
                *old(pool),
                *final(pool),
                *old(store),
                *final(store),
                st,
            ),
    {
        let node = self.node;
        crate::engine::check_input_queue(self, pool, store, node)
    }

    pub fn flush(&mut self, pool: &mut BufferPool, store: &mut ChannelStore) -> (r: Result<
        usize,
        DatapathError,
    >)
        requires
            crate::engine::flush_pre(*old(self), *old(store)),
        ensures
            crate::engine::flush_post(*old(self), *final(self), *old(store), *final(store), r),
            final(pool)@.len() == old(pool)@.len(),
    {
        let node = self.node;
        crate::engine::flush(self, pool, store, node)
    }

    /// The outstanding-request table and the configuration are persistent;
    /// the ACL itself is part of the code version and is rebuilt on restore.
    pub fn decompose(self) -> (r: (ResourceCollection, DataPathNode))
        ensures
            r.0.spec_get(ResourceKey::Config) == Some(
                ResourceValue::HelloAclSenderConfig(self.config),
            ),
            r.0.spec_get(ResourceKey::OutstandingReqPool) == Some(
                ResourceValue::ReqTable(self.outstanding_req_pool),
            ),
            r.0.spec_get(ResourceKey::Buffer) is None,
            r.0.spec_get(ResourceKey::MetaPool) is None,
            r.1 == self.node,
    {
        let mut collections = ResourceCollection::new();
        collections.insert(
            ResourceKey::OutstandingReqPool,
            ResourceValue::ReqTable(self.outstanding_req_pool),
        );
        collections.insert(ResourceKey::Config, ResourceValue::HelloAclSenderConfig(self.config));
        (collections, self.node)
    }

    /// Rebuilds the stage from its decomposed state, with the built-in ACL
    /// of this code version.
    pub fn restore(local: ResourceCollection, node: DataPathNode, _prev_version: Version) -> (r:
        Result<HelloAclSenderEngine, RestoreError>)
        ensures
            r is Ok <==> (local.spec_get(ResourceKey::OutstandingReqPool) matches Some(
                ResourceValue::ReqTable(_),
            ) && local.spec_get(ResourceKey::Config) matches Some(
                ResourceValue::HelloAclSenderConfig(_),
            )),
            r matches Ok(e) ==> {
                &&& local.spec_get(ResourceKey::OutstandingReqPool) == Some(
                    ResourceValue::ReqTable(e.outstanding_req_pool),
                )
                &&& local.spec_get(ResourceKey::Config) == Some(
                    ResourceValue::HelloAclSenderConfig(e.config),
                )
                &&& e.node == node
                &&& e.indicator@ == 0
                &&& e.acl_table@.len() == 2
                &&& e.acl_table@[0].name@ == "Apple"@
                &&& e.acl_table@[0].permission@ == "N"@
                &&& e.acl_table@[1].name@ == "Banana"@
                &&& e.acl_table@[1].permission@ == "Y"@
            },
    {
        let mut local = local;
        let outstanding_req_pool = match local.remove(ResourceKey::OutstandingReqPool) {
            Some(ResourceValue::ReqTable(t)) => t,
            Some(_) => {
                return Err(RestoreError::MistypedResource);
            },
            None => {
                return Err(RestoreError::MissingResource);
            },
        };
        let config = match local.remove(ResourceKey::Config) {
            Some(ResourceValue::HelloAclSenderConfig(c)) => c,
            Some(_) => {
                return Err(RestoreError::MistypedResource);
            },
            None => {
                return Err(RestoreError::MissingResource);
            },
        };
        let mut acl_table: Vec<AclTable> = Vec::new();
        acl_table.push(AclTable { name: "Apple".to_owned(), permission: "N".to_owned() });
        acl_table.push(AclTable { name: "Banana".to_owned(), permission: "Y".to_owned() });
        let engine = HelloAclSenderEngine {
            node,
            indicator: Indicator::new(),
            outstanding_req_pool,
            config,
            acl_table,
        };
        Ok(engine)
    }
}

/// Decompose followed immediately by restore (no version change) rebuilds
/// an equivalent stage on the same node: the outstanding-request table and
/// the configuration survive; the ACL, which belongs to the code version
/// rather than to the decomposed state, is rebuilt.
pub fn upgrade_in_place(e: HelloAclSenderEngine, version: Version) -> (r: Result<
    HelloAclSenderEngine,
    RestoreError,
>)
    ensures
        r matches Ok(e2) && e2.config == e.config && e2.outstanding_req_pool
            == e.outstanding_req_pool && e2.node == e.node,
{
    let (local, node) = e.decompose();
    HelloAclSenderEngine::restore(local, node, version)
}

} // verus!
