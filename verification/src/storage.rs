//! State transfer for live upgrades.
//!
//! `decompose` tears an engine's private state into a `ResourceCollection`;
//! `restore` pulls each required entry back out by key and type tag on a
//! new code version.  The collection is a closed, tagged record: a missing
//! or mistyped entry is detected by `restore` and aborts the upgrade — an
//! engine is never built half-initialized.

use vstd::prelude::*;

use crate::buffer::MetaBufferPool;
use crate::config::CacheConfig;
use crate::config::DecryptServerConfig;
use crate::config::GenencryptclientConfig;
use crate::config::HelloAclSenderConfig;
use crate::config::LoadBalancerConfig;
use crate::config::NullConfig;
use crate::config::cachehackConfig;
use crate::config::circuitbreakerConfig;
use crate::message::RpcId;
use crate::mrpclb::MrpcLBConfig;
use crate::state_mgr::SharedStateManager;

verus! {

/// A code version, carried across decompose/restore so restore logic can
/// branch on the version it is upgrading from.
#[derive(Clone, Copy, PartialEq, Eq, Structural, Debug)]
pub struct Version {
    pub number: u64,
}

/// The stable key of one persisted resource.
#[derive(Clone, Copy, PartialEq, Eq, Structural, Debug)]
pub enum ResourceKey {
    Config,
    Buffer,
    MetaPool,
    OutstandingReqPool,
    StateMgr,
}

/// A byte-keyed lookup table (the cache engines' key-to-value store).
/// Keys are unique; `insert` replaces.
pub struct KvTable {
    entries: Vec<(Vec<u8>, Vec<u8>)>,
}

/// A table of outstanding requests, keyed by call id.
pub struct ReqTable {
    entries: Vec<(RpcId, Vec<u8>)>,
}

/// One persisted resource, tagged by its concrete type.  A tag mismatch on
/// restore is a fatal upgrade error.
pub enum ResourceValue {
    CacheConfig(CacheConfig),
    CachehackConfig(cachehackConfig),
    CircuitBreakerConfig(circuitbreakerConfig),
    DecryptServerConfig(DecryptServerConfig),
    EncryptClientConfig(GenencryptclientConfig),
    HelloAclSenderConfig(HelloAclSenderConfig),
    LoadBalancerConfig(LoadBalancerConfig),
    MrpcLBConfig(MrpcLBConfig),
    NullConfig(NullConfig),
    KvTable(KvTable),
    MetaPool(MetaBufferPool),
    ReqTable(ReqTable),
    StateMgr(SharedStateManager),
}

/// Why a restore was aborted.
#[derive(Clone, Copy, PartialEq, Eq, Structural, Debug)]
pub enum RestoreError {
    /// A required key is absent from the collection.
    MissingResource,
    /// The entry under a required key has the wrong type tag.
    MistypedResource,
    /// The restore request named an engine type this addon does not provide.
    WrongEngineType,
}

/// The decomposed state of one engine: one slot per stable key.
pub struct ResourceCollection {
    pub config: Option<ResourceValue>,
    pub buffer: Option<ResourceValue>,
    pub meta_pool: Option<ResourceValue>,
    pub outstanding_req_pool: Option<ResourceValue>,
    pub state_mgr: Option<ResourceValue>,
}

impl ResourceCollection {
    /// The entry stored under a key.
    pub open spec fn spec_get(self, k: ResourceKey) -> Option<ResourceValue> {
        match k {
            ResourceKey::Config => self.config,
            ResourceKey::Buffer => self.buffer,
            ResourceKey::MetaPool => self.meta_pool,
            ResourceKey::OutstandingReqPool => self.outstanding_req_pool,
            ResourceKey::StateMgr => self.state_mgr,
        }
    }

    pub fn new() -> (r: ResourceCollection)
        ensures
            forall|k: ResourceKey| r.spec_get(k) is None,
    {
        ResourceCollection {
            config: None,
            buffer: None,
            meta_pool: None,
            outstanding_req_pool: None,
            state_mgr: None,
        }
    }

    /// Stores a value under a key, replacing what was there.
    pub fn insert(&mut self, k: ResourceKey, v: ResourceValue)
        ensures
            final(self).spec_get(k) == Some(v),
            forall|k2: ResourceKey| k2 != k ==> final(self).spec_get(k2) == old(self).spec_get(k2),
    {
        match k {
            ResourceKey::Config => {
                self.config = Some(v);
            },
            ResourceKey::Buffer => {
                self.buffer = Some(v);
            },
            ResourceKey::MetaPool => {
                self.meta_pool = Some(v);
            },
            ResourceKey::OutstandingReqPool => {
                self.outstanding_req_pool = Some(v);
            },
            ResourceKey::StateMgr => {
                self.state_mgr = Some(v);
            },
        }
    }

    /// Takes the value stored under a key out of the collection.
    pub fn remove(&mut self, k: ResourceKey) -> (r: Option<ResourceValue>)
        ensures
            r == old(self).spec_get(k),
            final(self).spec_get(k) is None,
            forall|k2: ResourceKey| k2 != k ==> final(self).spec_get(k2) == old(self).spec_get(k2),
    {
        match k {
            ResourceKey::Config => self.config.take(),
            ResourceKey::Buffer => self.buffer.take(),
            ResourceKey::MetaPool => self.meta_pool.take(),
            ResourceKey::OutstandingReqPool => self.outstanding_req_pool.take(),
            ResourceKey::StateMgr => self.state_mgr.take(),
        }
    }
}

/// Element-wise byte equality.
pub fn bytes_eq(a: &Vec<u8>, b: &Vec<u8>) -> (r: bool)
    ensures
        r == (a@ == b@),
{
    if a.len() != b.len() {
        return false;
    }
    let n = a.len();
    let mut k: usize = 0;
    while k < n
        invariant
            k <= n,
            n == a@.len(),
            n == b@.len(),
            forall|j: int| 0 <= j < k ==> a@[j] == b@[j],
        decreases n - k,
    {
        if a[k] != b[k] {
            return false;
        }
        k = k + 1;
    }
    proof {
        assert(a@ =~= b@);
    }
    true
}

/// The UTF-8 bytes of a string, as an owned vector.
pub fn str_bytes_vec(s: &str) -> (r: Vec<u8>)
    ensures
        r@ == vstd::utf8::encode_utf8(s@),
{
    let b = s.as_bytes();
    let mut out: Vec<u8> = Vec::new();
    let n = b.len();
    let mut k: usize = 0;
    while k < n
        invariant
            k <= n,
            n == b@.len(),
            out@ == b@.subrange(0, k as int),
        decreases n - k,
    {
        out.push(b[k]);
        proof {
            assert(b@.subrange(0, k + 1 as int) =~= b@.subrange(0, k as int).push(b@[k as int]));
        }
        k = k + 1;
    }
    proof {
        assert(b@.subrange(0, n as int) =~= b@);
    }
    out
}

/// A copy of a byte vector.
pub fn bytes_copy(src: &Vec<u8>) -> (r: Vec<u8>)
    ensures
        r@ == src@,
{
    let mut out: Vec<u8> = Vec::new();
    let n = src.len();
    let mut k: usize = 0;
    while k < n
        invariant
            k <= n,
            n == src@.len(),
            out@ == src@.subrange(0, k as int),
        decreases n - k,
    {
        out.push(src[k]);
        proof {
            assert(src@.subrange(0, k + 1 as int) =~= src@.subrange(0, k as int).push(
                src@[k as int],
            ));
        }
        k = k + 1;
    }
    proof {
        assert(src@.subrange(0, n as int) =~= src@);
    }
    out
}

impl KvTable {
    /// The table as a sequence of (key bytes, value bytes) pairs.
    pub closed spec fn view(&self) -> Seq<(Seq<u8>, Seq<u8>)> {
        Seq::new(self.entries@.len(), |i: int| (self.entries@[i].0@, self.entries@[i].1@))
    }

    /// Keys are unique.
    pub open spec fn wf(&self) -> bool {
        forall|i: int, j: int| 0 <= i < j < self@.len() ==> self@[i].0 != self@[j].0
    }

    /// The value stored under a key.
    pub open spec fn spec_get(&self, key: Seq<u8>) -> Option<Seq<u8>> {
        if exists|i: int| 0 <= i < self@.len() && self@[i].0 == key {
            let i = choose|i: int| 0 <= i < self@.len() && self@[i].0 == key;
            Some(self@[i].1)
        } else {
            None
        }
    }

    pub fn new() -> (t: KvTable)
        ensures
            t@ == Seq::<(Seq<u8>, Seq<u8>)>::empty(),
            t.wf(),
    {
        let t = KvTable { entries: Vec::new() };
        proof {
            assert(t@ =~= Seq::<(Seq<u8>, Seq<u8>)>::empty());
        }
        t
    }

    pub fn len(&self) -> (n: usize)
        ensures
            n == self@.len(),
    {
        self.entries.len()
    }

    /// Looks a key up, handing back a copy of the stored value.
    pub fn get_copy(&self, key: &Vec<u8>) -> (r: Option<Vec<u8>>)
        requires
            self.wf(),
        ensures
            match r {
                Some(v) => self.spec_get(key@) == Some(v@),
                None => self.spec_get(key@) is None,
            },
    {
        let n = self.entries.len();
        let mut k: usize = 0;
        while k < n
            invariant
                self.wf(),
                k <= n,
                n == self.entries@.len(),
                self@.len() == n,
                forall|j: int| 0 <= j < n ==> self@[j] == (self.entries@[j].0@, self.entries@[j].1@),
                forall|j: int| 0 <= j < k ==> self@[j].0 != key@,
            decreases n - k,
        {
            if bytes_eq(&self.entries[k].0, key) {
                let v = bytes_copy(&self.entries[k].1);
                proof {
                    assert(self@[k as int].0 == key@);
                    let i = choose|i: int| 0 <= i < self@.len() && self@[i].0 == key@;
                    if i != k as int {
                        if i < k as int {
                            assert(self@[i].0 != self@[k as int].0);
                        } else {
                            assert(self@[k as int].0 != self@[i].0);
                        }
                    }
                    assert(self@[i].1 == self@[k as int].1);
                }
                return Some(v);
            }
            k = k + 1;
        }
        None
    }

    /// Whether a key is present.
    pub fn contains(&self, key: &Vec<u8>) -> (r: bool)
        requires
            self.wf(),
        ensures
            r == (self.spec_get(key@) is Some),
    {
        let n = self.entries.len();
        let mut k: usize = 0;
        while k < n
            invariant
                self.wf(),
                k <= n,
                n == self.entries@.len(),
                self@.len() == n,
                forall|j: int| 0 <= j < n ==> self@[j] == (self.entries@[j].0@, self.entries@[j].1@),
                forall|j: int| 0 <= j < k ==> self@[j].0 != key@,
            decreases n - k,
        {
            if bytes_eq(&self.entries[k].0, key) {
                proof {
                    assert(self@[k as int].0 == key@);
                }
                return true;
            }
            k = k + 1;
        }
        false
    }

    /// Inserts a pair, replacing the value if the key is present.
    pub fn insert(&mut self, key: Vec<u8>, value: Vec<u8>)
        requires
            old(self).wf(),
        ensures
            final(self).wf(),
            final(self).spec_get(key@) == Some(value@),
            forall|k2: Seq<u8>|
                k2 != key@ ==> final(self).spec_get(k2) == old(self).spec_get(k2),
            final(self)@.len() <= old(self)@.len() + 1,
    {
        let n = self.entries.len();
        let mut k: usize = 0;
        while k < n
            invariant
                k <= n,
                n == self.entries@.len(),
                self@.len() == n,
                self.wf(),
                *self == *old(self),
                forall|j: int| 0 <= j < n ==> self@[j] == (self.entries@[j].0@, self.entries@[j].1@),
                forall|j: int| 0 <= j < k ==> self@[j].0 != key@,
            decreases n - k,
        {
            if bytes_eq(&self.entries[k].0, &key) {
                proof {
                    assert(self@[k as int].0 == key@);
                }
                self.entries.set(k, (key, value));
                proof {
                    lemma_kv_update(*old(self), *self, k as int, key@, value@);
                }
                return ;
            }
            k = k + 1;
        }
        self.entries.push((key, value));
        proof {
            assert(self@.len() == old(self)@.len() + 1);
            assert forall|j: int| 0 <= j < old(self)@.len() implies self@[j] == old(self)@[j] by {}
            assert(self@[old(self)@.len() as int] == (key@, value@));
            assert forall|k2: Seq<u8>| k2 != key@ implies self.spec_get(k2) == old(
                self,
            ).spec_get(k2) by {
                lemma_kv_push_other(*old(self), *self, key@, k2);
            }
        }
    }
}

/// After replacing the entry at the (unique) position of `key`, lookups of
/// `key` find the new value and every other key is untouched.
proof fn lemma_kv_update(t0: KvTable, t1: KvTable, at: int, key: Seq<u8>, value: Seq<u8>)
    requires
        t0.wf(),
        0 <= at < t0@.len(),
        t0@[at].0 == key,
        t1@.len() == t0@.len(),
        t1@[at] == (key, value),
        forall|j: int| 0 <= j < t0@.len() && j != at ==> t1@[j] == t0@[j],
    ensures
        t1.wf(),
        t1.spec_get(key) == Some(value),
        forall|k2: Seq<u8>| k2 != key ==> t1.spec_get(k2) == t0.spec_get(k2),
{
    assert forall|k2: Seq<u8>| k2 != key implies t1.spec_get(k2) == t0.spec_get(k2) by {
        if exists|i: int| 0 <= i < t0@.len() && t0@[i].0 == k2 {
            let i = choose|i: int| 0 <= i < t0@.len() && t0@[i].0 == k2;
            assert(i != at);
            assert(t1@[i].0 == k2);
        } else {
            assert forall|i: int| 0 <= i < t1@.len() implies t1@[i].0 != k2 by {
                if i != at {
                    assert(t1@[i] == t0@[i]);
                }
            }
        }
    }
}

/// After pushing a fresh pair onto a table with unique keys, every other
/// key looks up as before.
proof fn lemma_kv_push_other(t0: KvTable, t1: KvTable, key: Seq<u8>, k2: Seq<u8>)
    requires
        t0.wf(),
        t1@.len() == t0@.len() + 1,
        forall|j: int| 0 <= j < t0@.len() ==> t1@[j] == t0@[j],
        t1@[t0@.len() as int].0 == key,
        k2 != key,
    ensures
        t1.spec_get(k2) == t0.spec_get(k2),
{
    if exists|i: int| 0 <= i < t1@.len() && t1@[i].0 == k2 {
        let i1 = choose|i: int| 0 <= i < t1@.len() && t1@[i].0 == k2;
        assert(i1 != t0@.len());
        assert(t0@[i1].0 == k2);
        let i0 = choose|i: int| 0 <= i < t0@.len() && t0@[i].0 == k2;
        if i0 != i1 {
            if i0 < i1 {
                assert(t0@[i0].0 != t0@[i1].0);
            } else {
                assert(t0@[i1].0 != t0@[i0].0);
            }
        }
        assert(t1@[i1].1 == t0@[i0].1);
    } else {
        assert forall|i: int| 0 <= i < t0@.len() implies t0@[i].0 != k2 by {
            assert(t1@[i] == t0@[i]);
        }
    }
}

impl ReqTable {
    /// The outstanding requests, in arrival order.
    pub closed spec fn view(&self) -> Seq<(RpcId, Seq<u8>)> {
        Seq::new(self.entries@.len(), |i: int| (self.entries@[i].0, self.entries@[i].1@))
    }

    pub fn new() -> (t: ReqTable)
        ensures
            t@ == Seq::<(RpcId, Seq<u8>)>::empty(),
    {
        let t = ReqTable { entries: Vec::new() };
        proof {
            assert(t@ =~= Seq::<(RpcId, Seq<u8>)>::empty());
        }
        t
    }

    pub fn len(&self) -> (n: usize)
        ensures
            n == self@.len(),
    {
        self.entries.len()
    }
}

} // verus!
