//! The phases that a fixture passes through, from launch to termination.

use vstd::prelude::*;

verus! {

/// Where a fixture stands in its life.
#[derive(Clone, Copy, Debug, PartialEq, Eq, Structural)]
pub enum Phase {
    /// Nothing has been started.
    Uninitialized,
    /// Ports are chosen and the node process is being launched.
    NodeStarting,
    /// The node runs; a client session is being established.
    Connecting,
    /// A session exists; no contract has been deployed.
    Connected,
    /// A deployment has been submitted and awaits its events.
    Deploying,
    /// A contract is deployed and no operation is under way.
    Ready,
    /// A call has been issued and awaits its outcome.
    Calling,
    /// The node has been told to stop.
    TearingDown,
    /// The node process is gone.
    Terminated,
}

impl Phase {
    /// The moves that a fixture can make in one step. A failed connection
    /// attempt stays in `Connecting`, a failed deployment falls back to
    /// `Connected`, and teardown can begin in any phase in which the node
    /// runs.
    pub open spec fn precedes(self, next: Phase) -> bool {
        match self {
            Phase::Uninitialized => next is NodeStarting,
            Phase::NodeStarting => next is Connecting,
            Phase::Connecting => next is Connecting || next is Connected || next is TearingDown,
            Phase::Connected => next is Deploying || next is TearingDown,
            Phase::Deploying => next is Ready || next is Connected || next is TearingDown,
            Phase::Ready => next is Calling || next is TearingDown,
            Phase::Calling => next is Ready || next is TearingDown,
            Phase::TearingDown => next is Terminated,
            Phase::Terminated => false,
        }
    }

    /// Calls on a contract are permitted in `Ready` alone.
    pub open spec fn permits_calls(self) -> bool {
        self is Ready
    }

    /// Whether a call may be issued in this phase.
    pub fn allows_calls(&self) -> (ok: bool)
        ensures
            ok == self.permits_calls(),
    {
        matches!(self, Phase::Ready)
    }

    /// The name of the phase.
    pub fn name(&self) -> (s: &'static str)
        ensures
            s@ == self.name_spec(),
    {
        match self {
            Phase::Uninitialized => "Uninitialized",
            Phase::NodeStarting => "NodeStarting",
            Phase::Connecting => "Connecting",
            Phase::Connected => "Connected",
            Phase::Deploying => "Deploying",
            Phase::Ready => "Ready",
            Phase::Calling => "Calling",
            Phase::TearingDown => "TearingDown",
            Phase::Terminated => "Terminated",
        }
    }

    /// The characters of the phase's name.
    pub open spec fn name_spec(self) -> Seq<char> {
        match self {
            Phase::Uninitialized => "Uninitialized"@,
            Phase::NodeStarting => "NodeStarting"@,
            Phase::Connecting => "Connecting"@,
            Phase::Connected => "Connected"@,
            Phase::Deploying => "Deploying"@,
            Phase::Ready => "Ready"@,
            Phase::Calling => "Calling"@,
            Phase::TearingDown => "TearingDown"@,
            Phase::Terminated => "Terminated"@,
        }
    }
}

} // verus!
