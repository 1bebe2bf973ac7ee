//! The connection-manager engine's decision logic.  The actual transport
//! event polling belongs to the wire-transport collaborator outside this
//! runtime; what is verified here is what the engine decides for each
//! polling outcome, and when it may tear its process's resources down.

use vstd::prelude::*;

use crate::engine::Indicator;
use crate::state_mgr::State;

verus! {

/// What one poll of the connection manager's event channel produced.
#[derive(Clone, Copy, PartialEq, Eq, Structural, Debug)]
pub enum CmPollOutcome {
    /// An event was handled.
    Event,
    /// Nothing was pending.
    NoEvent,
    /// A transport-level error that is buffered and survived, with its code.
    RecoverableError(u32),
    /// An error the engine cannot absorb.
    Fatal(u32),
}

/// What the engine does with one polling outcome.
#[derive(Clone, Copy, PartialEq, Eq, Structural, Debug)]
pub enum CmStep {
    /// Work units done this step; a buffered recoverable error counts as
    /// work.
    Progress(usize),
    /// Wind the engine down with the fatal code.
    Fail(u32),
}

/// Maps one polling outcome to the engine's step: events and buffered
/// errors are progress, quiet polls are zero progress, fatal errors stop
/// the engine.  A recoverable error is appended to the error buffer and
/// never dropped.
pub fn check_cm_event(outcome: CmPollOutcome, err_buffer: &mut Vec<u32>) -> (s: CmStep)
    ensures
        (match outcome {
            CmPollOutcome::Event => {
                &&& s == CmStep::Progress(1usize)
                &&& final(err_buffer)@ == old(err_buffer)@
            },
            CmPollOutcome::NoEvent => {
                &&& s == CmStep::Progress(0usize)
                &&& final(err_buffer)@ == old(err_buffer)@
            },
            CmPollOutcome::RecoverableError(code) => {
                &&& s == CmStep::Progress(1usize)
                &&& final(err_buffer)@ == old(err_buffer)@.push(code)
            },
            CmPollOutcome::Fatal(code) => {
                &&& s == CmStep::Fail(code)
                &&& final(err_buffer)@ == old(err_buffer)@
            },
        }),
{
    match outcome {
        CmPollOutcome::Event => CmStep::Progress(1),
        CmPollOutcome::NoEvent => CmStep::Progress(0),
        CmPollOutcome::RecoverableError(code) => {
            err_buffer.push(code);
            CmStep::Progress(1)
        },
        CmPollOutcome::Fatal(code) => CmStep::Fail(code),
    }
}

/// Whether the connection manager, as the sole remaining engine of its
/// client, may tear the client's resources down.
pub fn should_terminate(alive_engines: u64) -> (r: bool)
    ensures
        r == (alive_engines == 1),
{
    alive_engines == 1
}

/// The connection-manager engine: its decisions are verified here; the
/// event polling itself is the transport collaborator's.
pub struct CmEngine {
    pub indicator: Indicator,
    pub state: State,
}

impl CmEngine {
    pub fn new(state: State) -> (e: CmEngine)
        ensures
            e.state == state,
            e.indicator@ == 0,
    {
        CmEngine { indicator: Indicator::new(), state }
    }

    pub fn description(&self) -> (r: String)
        ensures
            r@ == "CmEngine"@,
    {
        "CmEngine".to_owned()
    }

    pub fn tracker(&mut self) -> (t: &mut Indicator)
        ensures
            *t == old(self).indicator,
            final(self).indicator == *final(t),
            final(self).state == old(self).state,
    {
        &mut self.indicator
    }
}

} // verus!
