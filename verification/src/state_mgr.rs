//! Process-wide shared state, keyed by client process id: the resources
//! that must survive individual engine upgrades and that all engines of one
//! client share.  An entry is created on the first engine for a pid,
//! reference-counted by the number of live engines, and torn down when the
//! last one exits.

use vstd::prelude::*;

use crate::buffer::BufferPool;

verus! {

/// The per-client resources engines share: the receive-buffer pool backing
/// live connections.
pub struct Resource {
    pub recv_buffer_pool: BufferPool,
}

impl Resource {
    pub fn new(recv_buffer_pool: BufferPool) -> (r: Resource)
        ensures
            r.recv_buffer_pool == recv_buffer_pool,
    {
        Resource { recv_buffer_pool }
    }
}

/// The state shared among all engines of one client process.
pub struct Shared {
    pub pid: i32,
    pub alive_engines: u64,
    pub stop_acceptor: bool,
    pub resource: Resource,
}

impl Shared {
    /// Fresh shared state for a client's first engine.
    pub fn new(pid: i32, recv_buffer_pool: BufferPool) -> (s: Shared)
        ensures
            s.pid == pid,
            s.alive_engines == 1,
            !s.stop_acceptor,
            s.resource.recv_buffer_pool == recv_buffer_pool,
    {
        Shared { pid, alive_engines: 1, stop_acceptor: false, resource: Resource::new(recv_buffer_pool) }
    }
}

/// An engine's handle on its client's shared state.
pub struct State {
    pub pid: i32,
}

impl State {
    pub fn new(pid: i32) -> (s: State)
        ensures
            s.pid == pid,
    {
        State { pid }
    }
}

/// The first entry for a pid, or -1.
pub open spec fn spec_find_pid(s: Seq<Shared>, pid: i32) -> int
    decreases s.len(),
{
    if s.len() == 0 {
        -1
    } else if s[0].pid == pid {
        0
    } else {
        let r = spec_find_pid(s.drop_first(), pid);
        if r == -1 {
            -1
        } else {
            r + 1
        }
    }
}

/// Owns the per-client shared states of every live client.
pub struct SharedStateManager {
    entries: Vec<Shared>,
}

impl SharedStateManager {
    pub closed spec fn view(&self) -> Seq<Shared> {
        self.entries@
    }

    pub fn new() -> (m: SharedStateManager)
        ensures
            m@.len() == 0,
    {
        SharedStateManager { entries: Vec::new() }
    }

    pub fn len(&self) -> (n: usize)
        ensures
            n == self@.len(),
    {
        self.entries.len()
    }

    /// The live-engine count of a client, if it has shared state.
    pub fn alive_engines(&self, pid: i32) -> (r: Option<u64>)
        ensures
            match r {
                Some(c) => spec_find_pid(self@, pid) >= 0 && c == self@[spec_find_pid(
                    self@,
                    pid,
                )].alive_engines,
                None => spec_find_pid(self@, pid) == -1,
            },
    {
        let n = self.entries.len();
        let mut k: usize = 0;
        while k < n
            invariant
                k <= n,
                n == self@.len(),
                forall|j: int| 0 <= j < k ==> (#[trigger] self@[j]).pid != pid,
            decreases n - k,
        {
            if self.entries[k].pid == pid {
                proof {
                    lemma_find_pid_at(self@, pid, k as int);
                }
                return Some(self.entries[k].alive_engines);
            }
            k = k + 1;
        }
        proof {
            lemma_find_pid_absent(self@, pid);
        }
        None
    }

    /// Gets the shared state of a client, creating it for the client's
    /// first engine; an existing entry gains one engine reference.
    /// Returns whether the entry was created.
    pub fn get_or_create(&mut self, pid: i32, recv_buffer_pool: BufferPool) -> (created: bool)
        ensures
            if created {
                &&& spec_find_pid(old(self)@, pid) == -1
                &&& final(self)@.len() == old(self)@.len() + 1
                &&& final(self)@ == old(self)@.push(final(self)@.last())
                &&& final(self)@.last().pid == pid
                &&& final(self)@.last().alive_engines == 1
            } else {
                &&& spec_find_pid(old(self)@, pid) >= 0
                &&& final(self)@.len() == old(self)@.len()
                &&& ({
                    let i = spec_find_pid(old(self)@, pid);
                    &&& final(self)@[i].pid == pid
                    &&& final(self)@[i].alive_engines == (if old(self)@[i].alive_engines
                        == u64::MAX {
                        u64::MAX as u64
                    } else {
                        (old(self)@[i].alive_engines + 1) as u64
                    })
                    &&& forall|j: int|
                        0 <= j < old(self)@.len() && j != i ==> final(self)@[j] == old(self)@[j]
                })
            },
    {
        let n = self.entries.len();
        let mut k: usize = 0;
        while k < n
            invariant
                k <= n,
                n == self@.len(),
                *self == *old(self),
                forall|j: int| 0 <= j < k ==> (#[trigger] self@[j]).pid != pid,
            decreases n - k,
        {
            if self.entries[k].pid == pid {
                proof {
                    lemma_find_pid_at(self@, pid, k as int);
                }
                let prior = self.entries[k].alive_engines;
                let bumped: u64 = if prior == u64::MAX {
                    u64::MAX
                } else {
                    prior + 1
                };
                let entry = &mut self.entries[k];
                entry.alive_engines = bumped;
                return false;
            }
            k = k + 1;
        }
        proof {
            lemma_find_pid_absent(self@, pid);
        }
        self.entries.push(Shared::new(pid, recv_buffer_pool));
        true
    }

    /// Drops one engine reference of a client; the entry is torn down when
    /// its last engine exits.  Returns whether teardown happened, or `None`
    /// when the pid has no entry.
    pub fn release_engine(&mut self, pid: i32) -> (r: Option<bool>)
        ensures
            match r {
                None => spec_find_pid(old(self)@, pid) == -1 && final(self)@ == old(self)@,
                Some(torn_down) => {
                    let i = spec_find_pid(old(self)@, pid);
                    &&& i >= 0
                    &&& if torn_down {
                        old(self)@[i].alive_engines <= 1 && final(self)@ == old(self)@.remove(i)
                    } else {
                        &&& old(self)@[i].alive_engines > 1
                        &&& final(self)@.len() == old(self)@.len()
                        &&& final(self)@[i].alive_engines == old(self)@[i].alive_engines - 1
                        &&& final(self)@[i].pid == pid
                        &&& forall|j: int|
                            0 <= j < old(self)@.len() && j != i ==> final(self)@[j] == old(
                                self,
                            )@[j]
                    }
                },
            },
    {
        let n = self.entries.len();
        let mut k: usize = 0;
        while k < n
            invariant
                k <= n,
                n == self@.len(),
                *self == *old(self),
                forall|j: int| 0 <= j < k ==> (#[trigger] self@[j]).pid != pid,
            decreases n - k,
        {
            if self.entries[k].pid == pid {
                proof {
                    lemma_find_pid_at(self@, pid, k as int);
                }
                if self.entries[k].alive_engines <= 1 {
                    self.entries.remove(k);
                    return Some(true);
                } else {
                    let prior = self.entries[k].alive_engines;
                    let entry = &mut self.entries[k];
                    entry.alive_engines = prior - 1;
                    return Some(false);
                }
            }
            k = k + 1;
        }
        proof {
            lemma_find_pid_absent(self@, pid);
        }
        None
    }
}

/// A sequence with no matching entry scans to -1.
proof fn lemma_find_pid_absent(s: Seq<Shared>, pid: i32)
    requires
        forall|j: int| 0 <= j < s.len() ==> (#[trigger] s[j]).pid != pid,
    ensures
        spec_find_pid(s, pid) == -1,
    decreases s.len(),
{
    if s.len() > 0 {
        lemma_find_pid_absent(s.drop_first(), pid);
    }
}

/// The first matching entry is where the scan lands.
proof fn lemma_find_pid_at(s: Seq<Shared>, pid: i32, k: int)
    requires
        0 <= k < s.len(),
        s[k].pid == pid,
        forall|j: int| 0 <= j < k ==> (#[trigger] s[j]).pid != pid,
    ensures
        spec_find_pid(s, pid) == k,
    decreases k,
{
    if k > 0 {
        lemma_find_pid_at(s.drop_first(), pid, k - 1);
    }
}

} // verus!
