//! The identities the module registry works with: engine type names,
//! dependency edges, channel descriptors and the composed shape of a
//! service, plus the construction-plan resolver that orders engines so that
//! every dependency is built before its dependent.

use vstd::assert_by_contradiction;
use vstd::prelude::*;

verus! {

/// An interned name identifying a class of engine, unique within a running
/// instance; the graph-node key and the routing key for commands.
#[derive(Debug, Eq, Hash)]
pub struct EngineType(pub String);

impl PartialEq for EngineType {
    fn eq(&self, other: &EngineType) -> (r: bool) {
        self.0 == other.0
    }
}

impl vstd::std_specs::cmp::PartialEqSpecImpl for EngineType {
    open spec fn obeys_eq_spec() -> bool {
        true
    }

    open spec fn eq_spec(&self, other: &EngineType) -> bool {
        self.0@ == other.0@
    }
}

impl View for EngineType {
    type V = Seq<char>;

    open spec fn view(&self) -> Seq<char> {
        self.0@
    }
}

impl Clone for EngineType {
    fn clone(&self) -> (r: EngineType)
        ensures
            r@ == self@,
    {
        EngineType(self.0.clone())
    }
}

impl EngineType {
    pub fn new(name: &str) -> (t: EngineType)
        ensures
            t@ == name@,
    {
        EngineType(name.to_owned())
    }
}

/// An ordered pair of engine types: the first must be constructed after the
/// second (it feeds into it), an edge of the dependency graph.
pub struct EnginePair(pub EngineType, pub EngineType);

/// One directed queue to create at service instantiation: source engine,
/// destination engine, source port index, destination port index.
pub struct ChannelDescriptor(pub EngineType, pub EngineType, pub usize, pub usize);

/// A service identity.
#[derive(Debug)]
pub struct Service(pub String);

/// The composed shape of a service instance: its entry engine, the ordered
/// channel descriptors for the two directions, and the scheduling groups.
pub struct ServiceInfo {
    pub service: Service,
    pub engine: EngineType,
    pub tx_channels: Vec<ChannelDescriptor>,
    pub rx_channels: Vec<ChannelDescriptor>,
    pub scheduling_groups: Vec<Vec<EngineType>>,
}

/// Why an addon refused a request.
#[derive(Clone, Copy, PartialEq, Eq, Structural, Debug)]
pub enum AddonError {
    /// The requested engine type is not one this addon provides.
    InvalidEngineType,
}

/// Why a service could not be composed.
#[derive(Clone, Copy, PartialEq, Eq, Structural, Debug)]
pub enum GraphError {
    /// The dependency edges admit no construction order.
    Cycle,
    /// A channel descriptor names an engine that is not part of the service.
    UnknownEngine,
    /// A channel descriptor uses a port other than the single port each
    /// direction has.
    BadPort,
    /// Two channel descriptors claim the same endpoint of one engine, or a
    /// descriptor loops an engine onto itself.
    PortConflict,
}

/// Whether `s` lists the value `v`.
pub open spec fn spec_listed(s: Seq<usize>, v: usize) -> bool {
    exists|j: int| 0 <= j < s.len() && s[j] == v
}

/// The position of `v` in `s` (meaningful when `s` lists distinct values
/// and contains `v`).
pub open spec fn spec_pos(s: Seq<usize>, v: usize) -> int {
    choose|j: int| 0 <= j < s.len() && s[j] == v
}

/// A set of engines each of which depends on another member of the set:
/// the witness that no construction order exists.
pub open spec fn spec_cyclic(edges: Seq<(usize, usize)>, n: int) -> bool {
    exists|blocked: Set<usize>|
        {
            &&& !blocked.is_empty()
            &&& forall|v: usize| blocked.contains(v) ==> v < n
            &&& forall|v: usize| #[trigger]
                blocked.contains(v) ==> exists|k: int|
                    0 <= k < edges.len() && (#[trigger] edges[k]).0 == v && blocked.contains(
                        edges[k].1,
                    )
        }
}

/// Resolves the dependency edges into a construction order: engine `i`
/// depends on engine `j` for each edge `(i, j)`, and the order places every
/// engine after all the engines it depends on — dependencies are
/// constructed first.  The order is a permutation of `0 .. n`.  When the
/// edges admit no such order the request fails with `Cycle`.
#[verifier::rlimit(60)]
pub fn construction_plan(n: usize, edges: &Vec<(usize, usize)>) -> (r: Result<
    Vec<usize>,
    GraphError,
>)
    requires
        forall|k: int|
            0 <= k < edges@.len() ==> (#[trigger] edges@[k]).0 < n && edges@[k].1 < n,
    ensures
        match r {
            Ok(order) => {
                &&& order@.len() == n
                &&& forall|i: int, j: int| 0 <= i < j < n ==> order@[i] != order@[j]
                &&& forall|i: int| 0 <= i < n ==> (#[trigger] order@[i]) < n
                &&& forall|v: usize| v < n ==> #[trigger] spec_listed(order@, v)
                &&& forall|k: int|
                    0 <= k < edges@.len() ==> spec_pos(order@, (#[trigger] edges@[k]).1) < spec_pos(
                        order@,
                        edges@[k].0,
                    )
            },
            Err(e) => e == GraphError::Cycle && spec_cyclic(edges@, n as int),
        },
{
    let mut order: Vec<usize> = Vec::new();
    let mut placed: Vec<bool> = Vec::new();
    let mut k: usize = 0;
    while k < n
        invariant
            k <= n,
            placed@.len() == k,
            forall|i: int| 0 <= i < k ==> !(#[trigger] placed@[i]),
        decreases n - k,
    {
        placed.push(false);
        k = k + 1;
    }
    let mut rounds: usize = 0;
    while rounds < n
        invariant
            rounds <= n,
            placed@.len() == n,
            order@.len() == rounds,
            forall|k2: int|
                0 <= k2 < edges@.len() ==> (#[trigger] edges@[k2]).0 < n && edges@[k2].1 < n,
            // what is placed is exactly what the order lists
            forall|i: int| 0 <= i < order@.len() ==> (#[trigger] order@[i]) < n,
            forall|i: int, j: int| 0 <= i < j < order@.len() ==> order@[i] != order@[j],
            forall|i: int| 0 <= i < order@.len() ==> placed@[order@[i] as int],
            forall|v: usize| v < n && placed@[v as int] ==> #[trigger] spec_listed(order@, v),
            // every placed engine's dependencies are placed earlier
            forall|k2: int, j: int|
                0 <= k2 < edges@.len() && 0 <= j < order@.len() && (#[trigger] edges@[k2]).0 == (
                #[trigger] order@[j]) ==> exists|j2: int|
                    0 <= j2 < j && order@[j2] == edges@[k2].1,
        decreases n - rounds,
    {
        let mut candidate: Option<usize> = None;
        let mut v: usize = 0;
        while v < n
            invariant
                v <= n,
                placed@.len() == n,
                forall|k2: int|
                    0 <= k2 < edges@.len() ==> (#[trigger] edges@[k2]).0 < n && edges@[k2].1 < n,
                match candidate {
                    Some(c) => {
                        &&& c < n
                        &&& !placed@[c as int]
                        &&& forall|k2: int|
                            0 <= k2 < edges@.len() && (#[trigger] edges@[k2]).0 == c ==> placed@[
                                edges@[k2].1 as int
                            ]
                    },
                    None => forall|u: usize|
                        u < v && !placed@[u as int] ==> exists|k2: int|
                            0 <= k2 < edges@.len() && (#[trigger] edges@[k2]).0 == u && !placed@[
                                edges@[k2].1 as int
                            ],
                },
            decreases n - v,
        {
            if candidate.is_none() && !placed[v] {
                let mut ok = true;
                let m = edges.len();
                let mut e: usize = 0;
                while e < m
                    invariant
                        e <= m,
                        m == edges@.len(),
                        placed@.len() == n,
                        v < n,
                        forall|k2: int|
                            0 <= k2 < edges@.len() ==> (#[trigger] edges@[k2]).0 < n
                                && edges@[k2].1 < n,
                        ok ==> forall|k2: int|
                            0 <= k2 < e && (#[trigger] edges@[k2]).0 == v ==> placed@[
                                edges@[k2].1 as int
                            ],
                        !ok ==> exists|k2: int|
                            0 <= k2 < edges@.len() && (#[trigger] edges@[k2]).0 == v && !placed@[
                                edges@[k2].1 as int
                            ],
                    decreases m - e,
                {
                    if edges[e].0 == v && !placed[edges[e].1] {
                        ok = false;
                    }
                    e = e + 1;
                }
                if ok {
                    candidate = Some(v);
                }
            }
            v = v + 1;
        }
        match candidate {
            Some(c) => {
                let ghost placed0 = placed@;
                let ghost order0 = order@;
                placed.set(c, true);
                order.push(c);
                proof {
                    lemma_plan_step(placed0, order0, placed@, order@, edges@, n, c);
                }
            },
            None => {
                proof {
                    lemma_plan_stuck(placed@, order@, edges@, n);
                }
                return Err(GraphError::Cycle);
            },
        }
        rounds = rounds + 1;
    }
    proof {
        assert forall|v: usize| v < n implies #[trigger] spec_listed(order@, v) by {
            lemma_all_placed(placed@, order@, n, v);
        }
        assert forall|k2: int|
            0 <= k2 < edges@.len() implies spec_pos(order@, (#[trigger] edges@[k2]).1) < spec_pos(
            order@,
            edges@[k2].0,
        ) by {
            lemma_edge_positions(order@, edges@, n, k2);
        }
    }
    Ok(order)
}

/// Placing one ready engine preserves every invariant of the construction
/// loop: the order stays a distinct list of placed engines whose
/// dependencies all sit earlier.
proof fn lemma_plan_step(
    placed0: Seq<bool>,
    order0: Seq<usize>,
    placed1: Seq<bool>,
    order1: Seq<usize>,
    edges: Seq<(usize, usize)>,
    n: usize,
    c: usize,
)
    requires
        placed0.len() == n,
        c < n,
        !placed0[c as int],
        forall|k2: int| 0 <= k2 < edges.len() ==> (#[trigger] edges[k2]).0 < n && edges[k2].1 < n,
        forall|k2: int|
            0 <= k2 < edges.len() && (#[trigger] edges[k2]).0 == c ==> placed0[edges[k2].1 as int],
        forall|i: int| 0 <= i < order0.len() ==> (#[trigger] order0[i]) < n,
        forall|i: int, j: int| 0 <= i < j < order0.len() ==> order0[i] != order0[j],
        forall|i: int| 0 <= i < order0.len() ==> placed0[(#[trigger] order0[i]) as int],
        forall|v: usize| v < n && placed0[v as int] ==> #[trigger] spec_listed(order0, v),
        forall|k2: int, j: int|
            0 <= k2 < edges.len() && 0 <= j < order0.len() && (#[trigger] edges[k2]).0 == (
            #[trigger] order0[j]) ==> exists|j2: int| 0 <= j2 < j && order0[j2] == edges[k2].1,
        order1 == order0.push(c),
        placed1 == placed0.update(c as int, true),
    ensures
        forall|i: int| 0 <= i < order1.len() ==> (#[trigger] order1[i]) < n,
        forall|i: int, j: int| 0 <= i < j < order1.len() ==> order1[i] != order1[j],
        forall|i: int| 0 <= i < order1.len() ==> placed1[(#[trigger] order1[i]) as int],
        forall|v: usize| v < n && placed1[v as int] ==> #[trigger] spec_listed(order1, v),
        forall|k2: int, j: int|
            0 <= k2 < edges.len() && 0 <= j < order1.len() && (#[trigger] edges[k2]).0 == (
            #[trigger] order1[j]) ==> exists|j2: int| 0 <= j2 < j && order1[j2] == edges[k2].1,
{
    assert forall|v: usize| v < n && placed1[v as int] implies #[trigger] spec_listed(
        order1,
        v,
    ) by {
        if v == c {
            assert(order1[order0.len() as int] == c);
        } else {
            assert(placed0[v as int]);
            assert(spec_listed(order0, v));
            let j = choose|j: int| 0 <= j < order0.len() && order0[j] == v;
            assert(order1[j] == v);
        }
    }
    assert forall|i: int, j: int| 0 <= i < j < order1.len() implies order1[i] != order1[j] by {
        if j == order0.len() {
            assert(placed0[order0[i] as int]);
            assert(!placed0[c as int]);
        }
    }
    assert forall|i: int|
        0 <= i < order1.len() implies placed1[(#[trigger] order1[i]) as int] by {
        if i < order0.len() {
            assert(placed0[order0[i] as int]);
        }
    }
    assert forall|k2: int, j: int|
        0 <= k2 < edges.len() && 0 <= j < order1.len() && (#[trigger] edges[k2]).0 == (
        #[trigger] order1[j]) implies exists|j2: int| 0 <= j2 < j && order1[j2] == edges[k2].1 by {
        let dep = edges[k2].1;
        if j < order0.len() {
            assert(order1[j] == order0[j]);
            let j2 = choose|j2: int| 0 <= j2 < j && order0[j2] == dep;
            assert(order1[j2] == dep);
        } else {
            assert(order1[j] == c);
            assert(placed0[dep as int]);
            assert(spec_listed(order0, dep));
            let j2 = choose|j2: int| 0 <= j2 < order0.len() && order0[j2] == dep;
            assert(order1[j2] == dep);
        }
    }
}

/// When no unplaced engine is ready, the unplaced engines witness a cycle.
proof fn lemma_plan_stuck(placed: Seq<bool>, order: Seq<usize>, edges: Seq<(usize, usize)>, n: usize)
    requires
        placed.len() == n,
        order.len() < n,
        forall|k2: int| 0 <= k2 < edges.len() ==> (#[trigger] edges[k2]).0 < n && edges[k2].1 < n,
        forall|i: int| 0 <= i < order.len() ==> (#[trigger] order[i]) < n,
        forall|i: int, j: int| 0 <= i < j < order.len() ==> order[i] != order[j],
        forall|v: usize| v < n && placed[v as int] ==> #[trigger] spec_listed(order, v),
        forall|u: usize|
            u < n && !placed[u as int] ==> exists|k2: int|
                0 <= k2 < edges.len() && (#[trigger] edges[k2]).0 == u && !placed[
                    edges[k2].1 as int
                ],
    ensures
        spec_cyclic(edges, n as int),
{
    let blocked = Set::new(|u: usize| u < n && !placed[u as int]);
    assert(exists|u: usize| u < n && !placed[u as int]) by {
        lemma_some_unplaced(placed, order, n);
    }
    let w = choose|u: usize| u < n && !placed[u as int];
    assert(blocked.contains(w));
    assert(!blocked.is_empty());
    assert forall|u: usize| #[trigger]
        blocked.contains(u) implies exists|k2: int|
        0 <= k2 < edges.len() && (#[trigger] edges[k2]).0 == u && blocked.contains(
            edges[k2].1,
        ) by {
        assert(u < n && !placed[u as int]);
        let k2 = choose|k2: int|
            0 <= k2 < edges.len() && (#[trigger] edges[k2]).0 == u && !placed[
                edges[k2].1 as int
            ];
        assert(blocked.contains(edges[k2].1));
    }
    assert(spec_cyclic(edges, n as int));
}

/// When fewer engines are placed than exist, one is unplaced.
proof fn lemma_some_unplaced(placed: Seq<bool>, order: Seq<usize>, n: usize)
    requires
        placed.len() == n,
        order.len() < n,
        forall|i: int| 0 <= i < order.len() ==> (#[trigger] order[i]) < n,
        forall|i: int, j: int| 0 <= i < j < order.len() ==> order[i] != order[j],
        forall|v: usize| v < n && placed[v as int] ==> #[trigger] spec_listed(order, v),
    ensures
        exists|u: usize| u < n && !placed[u as int],
{
    assert_by_contradiction!(exists|u: usize| u < n && !placed[u as int], {
        // every engine is placed, so `order` would name all n distinct
        // values of 0..n in fewer than n slots
        broadcast use vstd::set::group_set_axioms;
        broadcast use vstd::seq_lib::seq_to_set_is_finite;

        let listed = order.to_set();
        assert(order.no_duplicates());
        order.unique_seq_to_set();
        let everything = Set::new(|v: usize| v < n);
        assert(everything.subset_of(listed)) by {
            assert forall|v: usize| everything.contains(v) implies listed.contains(v) by {
                assert(0 <= (v as int) < n);
                assert(placed[v as int]);
                assert(spec_listed(order, v));
                let j = choose|j: int| 0 <= j < order.len() && order[j] == v;
                assert(order.contains(v));
            }
        }
        lemma_usize_range_len(n);
        vstd::set_lib::lemma_len_subset(everything, listed);
    });
}

/// The set `{v : usize | v < n}` has `n` members.
proof fn lemma_usize_range_len(n: usize)
    ensures
        Set::new(|v: usize| v < n).finite(),
        Set::new(|v: usize| v < n).len() == n,
    decreases n,
{
    broadcast use vstd::set::group_set_axioms;

    if n == 0 {
        assert(Set::new(|v: usize| v < n) =~= Set::<usize>::empty());
    } else {
        lemma_usize_range_len((n - 1) as usize);
        assert(Set::new(|v: usize| v < n) =~= Set::new(
            |v: usize| v < (n - 1) as usize,
        ).insert((n - 1) as usize));
    }
}

/// With everything placed, every engine appears in the order.
proof fn lemma_all_placed(placed: Seq<bool>, order: Seq<usize>, n: usize, v: usize)
    requires
        placed.len() == n,
        order.len() == n,
        v < n,
        forall|i: int| 0 <= i < order.len() ==> placed[(#[trigger] order[i]) as int],
        forall|i: int| 0 <= i < order.len() ==> (#[trigger] order[i]) < n,
        forall|i: int, j: int| 0 <= i < j < order.len() ==> order[i] != order[j],
        forall|w: usize| w < n && placed[w as int] ==> #[trigger] spec_listed(order, w),
    ensures
        spec_listed(order, v),
{
    assert_by_contradiction!(placed[v as int], {
        // v is unplaced, so order names n distinct values out of the other
        // n - 1 placed ones: impossible
        broadcast use vstd::set::group_set_axioms;
        broadcast use vstd::seq_lib::seq_to_set_is_finite;

        assert(forall|i: int| 0 <= i < order.len() ==> (#[trigger] order[i]) != v);
        assert(order.no_duplicates());
        order.unique_seq_to_set();
        let small = Set::new(|u: usize| u < n && u != v);
        assert(order.to_set().subset_of(small)) by {
            assert forall|u: usize| order.to_set().contains(u) implies small.contains(u) by {
                assert(order.contains(u));
                let i = choose|i: int| 0 <= i < order.len() && order[i] == u;
            }
        }
        lemma_usize_range_minus_one_len(n, v);
        vstd::set_lib::lemma_len_subset(order.to_set(), small);
    });
}

/// The set `{u : usize | u < n, u != v}` has `n - 1` members when `v < n`.
proof fn lemma_usize_range_minus_one_len(n: usize, v: usize)
    requires
        v < n,
    ensures
        Set::new(|u: usize| u < n && u != v).finite(),
        Set::new(|u: usize| u < n && u != v).len() == n - 1,
{
    broadcast use vstd::set::group_set_axioms;

    lemma_usize_range_len(n);
    assert(Set::new(|u: usize| u < n && u != v) =~= Set::new(|u: usize| u < n).remove(v));
}

/// An edge's dependency sits earlier in the order than its dependent.
proof fn lemma_edge_positions(order: Seq<usize>, edges: Seq<(usize, usize)>, n: usize, k: int)
    requires
        order.len() == n,
        0 <= k < edges.len(),
        edges[k].0 < n,
        edges[k].1 < n,
        forall|i: int| 0 <= i < order.len() ==> (#[trigger] order[i]) < n,
        forall|i: int, j: int| 0 <= i < j < order.len() ==> order[i] != order[j],
        forall|v: usize| v < n ==> #[trigger] spec_listed(order, v),
        forall|k2: int, j: int|
            0 <= k2 < edges.len() && 0 <= j < order.len() && (#[trigger] edges[k2]).0 == (
            #[trigger] order[j]) ==> exists|j2: int| 0 <= j2 < j && order[j2] == edges[k2].1,
    ensures
        spec_pos(order, edges[k].1) < spec_pos(order, edges[k].0),
{
    let a = edges[k].0;
    let b = edges[k].1;
    let ja = spec_pos(order, a);
    assert(spec_listed(order, a));
    assert(0 <= ja < order.len() && order[ja] == a);
    let jb = spec_pos(order, b);
    assert(spec_listed(order, b));
    assert(0 <= jb < order.len() && order[jb] == b);
    let j2 = choose|j2: int| 0 <= j2 < ja && order[j2] == b;
    assert(0 <= j2 < ja && order[j2] == b);
    if jb != j2 {
        if jb < j2 {
            assert(order[jb] != order[j2]);
        } else {
            assert(order[j2] != order[jb]);
        }
    }
}

} // verus!
