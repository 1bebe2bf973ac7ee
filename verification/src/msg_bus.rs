//! The control-plane command executor: holds running engines keyed by
//! engine type and delivers command-signal envelopes to the engine they
//! address.

use vstd::prelude::*;

use crate::codec::ControlError;
use crate::registry::EngineType;
use crate::runtime::EngineUnion;
use crate::runtime::spec_command_applied;

verus! {

/// Why a command signal was not applied.
#[derive(Clone, Copy, PartialEq, Eq, Structural, Debug)]
pub enum Error {
    /// No running engine has the addressed type.
    NotFound,
    /// The addressed engine rejected the command; its prior state is
    /// retained.
    Rejected(ControlError),
}

/// An out-of-process command signal: the engine type it addresses and the
/// command envelope to deliver there.
pub struct CommandSignal {
    pub engine_type: EngineType,
    pub param: Vec<u8>,
}

/// The first entry carrying the addressed engine type, or -1.
pub open spec fn spec_find_engine(s: Seq<(EngineType, EngineUnion)>, name: Seq<char>) -> int
    decreases s.len(),
{
    if s.len() == 0 {
        -1
    } else if s[0].0@ == name {
        0
    } else {
        let r = spec_find_engine(s.drop_first(), name);
        if r == -1 {
            -1
        } else {
            r + 1
        }
    }
}

/// Holds running engines keyed by type and routes commands to them.
pub struct CommandExecutor {
    engines: Vec<(EngineType, EngineUnion)>,
}

impl CommandExecutor {
    pub closed spec fn view(&self) -> Seq<(EngineType, EngineUnion)> {
        self.engines@
    }

    pub fn new() -> (r: CommandExecutor)
        ensures
            r@.len() == 0,
    {
        CommandExecutor { engines: Vec::new() }
    }

    /// Registers a running engine under its type, replacing any engine
    /// already registered under that type: commands keep flowing to the
    /// newest registration.
    pub fn add_engine(&mut self, etype: EngineType, engine: EngineUnion)
        ensures
            ({
                let i = spec_find_engine(old(self)@, etype@);
                if i >= 0 {
                    final(self)@ == old(self)@.update(i, (etype, engine))
                } else {
                    final(self)@ == old(self)@.push((etype, engine))
                }
            }),
    {
        let n = self.engines.len();
        let mut k: usize = 0;
        while k < n
            invariant
                k <= n,
                n == self@.len(),
                *self == *old(self),
                forall|j: int| 0 <= j < k ==> (#[trigger] self@[j]).0@ != etype@,
            decreases n - k,
        {
            if self.engines[k].0 == etype {
                proof {
                    lemma_find_engine_at(self@, etype@, k as int);
                }
                self.engines.set(k, (etype, engine));
                return ;
            }
            k = k + 1;
        }
        proof {
            lemma_find_engine_absent(self@, etype@);
        }
        self.engines.push((etype, engine));
    }

    pub fn len(&self) -> (n: usize)
        ensures
            n == self@.len(),
    {
        self.engines.len()
    }

    /// Delivers a command signal to the engine registered under the
    /// addressed type.  Fails with `NotFound` exactly when no such engine is
    /// registered; otherwise the addressed engine handles the envelope under
    /// its exact decode-validate-apply contract (a rejection is reported
    /// through, with the engine's prior state retained) and every other
    /// entry is untouched.
    pub fn execute(&mut self, signal: &CommandSignal) -> (r: Result<(), Error>)
        ensures
            final(self)@.len() == old(self)@.len(),
            r == Err::<(), Error>(Error::NotFound) <==> spec_find_engine(
                old(self)@,
                signal.engine_type@,
            ) == -1,
            spec_find_engine(old(self)@, signal.engine_type@) == -1 ==> final(self)@ == old(
                self,
            )@,
            ({
                let i = spec_find_engine(old(self)@, signal.engine_type@);
                i >= 0 ==> {
                    &&& (final(self)@[i].0)@ == (old(self)@[i].0)@
                    &&& forall|j: int|
                        0 <= j < old(self)@.len() && j != i ==> final(self)@[j] == old(self)@[j]
                    &&& spec_command_applied(
                        old(self)@[i].1,
                        final(self)@[i].1,
                        signal.param@,
                        (match r {
                            Ok(()) => Ok(()),
                            Err(Error::Rejected(e)) => Err(e),
                            Err(Error::NotFound) => Ok(()),
                        }),
                    )
                    &&& r != Err::<(), Error>(Error::NotFound)
                }
            }),
    {
        let n = self.engines.len();
        let mut k: usize = 0;
        while k < n
            invariant
                k <= n,
                n == self@.len(),
                *self == *old(self),
                forall|j: int| 0 <= j < k ==> (#[trigger] self@[j]).0@ != signal.engine_type@,
            decreases n - k,
        {
            if self.engines[k].0 == signal.engine_type {
                proof {
                    lemma_find_engine_at(self@, signal.engine_type@, k as int);
                }
                let entry = &mut self.engines[k];
                let outcome = entry.1.handle_request(&signal.param);
                return match outcome {
                    Ok(()) => Ok(()),
                    Err(e) => Err(Error::Rejected(e)),
                };
            }
            k = k + 1;
        }
        proof {
            lemma_find_engine_absent(self@, signal.engine_type@);
        }
        Err(Error::NotFound)
    }
}

/// A registry with no entry of the addressed type scans to -1.
proof fn lemma_find_engine_absent(s: Seq<(EngineType, EngineUnion)>, name: Seq<char>)
    requires
        forall|j: int| 0 <= j < s.len() ==> (#[trigger] s[j]).0@ != name,
    ensures
        spec_find_engine(s, name) == -1,
    decreases s.len(),
{
    if s.len() > 0 {
        lemma_find_engine_absent(s.drop_first(), name);
    }
}

/// The first matching entry is where the scan lands.
proof fn lemma_find_engine_at(s: Seq<(EngineType, EngineUnion)>, name: Seq<char>, k: int)
    requires
        0 <= k < s.len(),
        s[k].0@ == name,
        forall|j: int| 0 <= j < k ==> (#[trigger] s[j]).0@ != name,
    ensures
        spec_find_engine(s, name) == k,
    decreases k,
{
    if k > 0 {
        lemma_find_engine_at(s.drop_first(), name, k - 1);
    }
}

} // verus!
