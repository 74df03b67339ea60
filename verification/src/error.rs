//! The failures of a fixture, each with the step that failed and its cause.

use crate::decimal::{append_decimal, decimal};
use crate::events::EventKind;
use crate::phase::Phase;
use vstd::prelude::*;
use vstd::string::StringExecFns;

verus! {

/// The two endpoints that a node listens on.
#[derive(Clone, Copy, Debug, PartialEq, Eq, Structural)]
pub enum PortRole {
    /// Peer-to-peer traffic.
    PeerToPeer,
    /// Client (RPC) connections.
    Client,
}

/// Why a submitted transaction does not count as confirmed.
#[derive(Clone, Debug, PartialEq, Eq)]
pub enum Unconfirmed {
    /// Submission or the wait for finalization failed.
    NotFinalized { cause: String },
    /// The transaction was finalized without an `Instantiated` event.
    InstantiatedMissing,
    /// The transaction was finalized without an `ExtrinsicSuccess` event.
    SuccessMissing,
}

/// A failure of the fixture.
#[derive(Clone, Debug, PartialEq, Eq)]
pub enum FixtureError {
    /// No unused local port was available for the endpoint.
    PortAllocationFailed { role: PortRole },
    /// The node process could not be started.
    NodeSpawnFailed { p2p_port: u16, ws_port: u16, cause: String },
    /// No session could be built within the retry budget.
    ConnectionExhausted { attempts: u32, last_error: String },
    /// The contract binary could not be read.
    BinaryReadFailed { cause: String },
    /// A deployment was submitted but its success is not in evidence.
    DeploymentUnconfirmed { reason: Unconfirmed },
    /// A mutating call was submitted but its success is not in evidence.
    CallUnconfirmed { reason: Unconfirmed },
    /// A read-only call failed in transport.
    QueryFailed { cause: String },
    /// An event of the kind was present but could not be decoded.
    EventDecodeFailed { kind: EventKind },
    /// The node process could not be stopped.
    TeardownFailed { cause: String },
    /// The operation is not permitted in the phase the fixture is in.
    InvalidPhase { phase: Phase },
}

impl Unconfirmed {
    /// The text of the reason.
    pub open spec fn message(self) -> Seq<char> {
        match self {
            Unconfirmed::NotFinalized { cause } => "transaction was not finalized: "@ + cause@,
            Unconfirmed::InstantiatedMissing => "Failed to find a Instantiated event"@,
            Unconfirmed::SuccessMissing => "Failed to find a ExtrinsicSuccess event"@,
        }
    }

    /// Appends the text of the reason to `out`.
    fn append_to(&self, out: &mut String)
        ensures
            final(out)@ == old(out)@ + self.message(),
    {
        match self {
            Unconfirmed::NotFinalized { cause } => {
                out.append("transaction was not finalized: ");
                out.append(cause.as_str());
            },
            Unconfirmed::InstantiatedMissing => {
                out.append("Failed to find a Instantiated event");
            },
            Unconfirmed::SuccessMissing => {
                out.append("Failed to find a ExtrinsicSuccess event");
            },
        }
    }
}

impl FixtureError {
    /// Whether the failure fails the test. A failed teardown is reported and
    /// nothing more, so that it never hides what the test itself found.
    pub open spec fn fatal(self) -> bool {
        !(self is TeardownFailed)
    }

    /// Whether the failure fails the test.
    pub fn is_fatal(&self) -> (b: bool)
        ensures
            b == self.fatal(),
    {
        match self {
            FixtureError::TeardownFailed { .. } => false,
            _ => true,
        }
    }

    /// The text of the failure: the step that failed, then its cause.
    pub open spec fn message(self) -> Seq<char> {
        match self {
            FixtureError::PortAllocationFailed { role } => match role {
                PortRole::PeerToPeer => "No P2P ports free"@,
                PortRole::Client => "No WS ports free"@,
            },
            FixtureError::NodeSpawnFailed { p2p_port, ws_port, cause } => {
                "Failed to spawn Substrate Node process p2p_port "@ + decimal(p2p_port as nat)
                    + " ws_port "@ + decimal(ws_port as nat) + ": "@ + cause@
            },
            FixtureError::ConnectionExhausted { attempts, last_error } => {
                "Couldn't connect to node in "@ + decimal(attempts as nat) + " attempts: "@
                    + last_error@
            },
            FixtureError::BinaryReadFailed { cause } => "Failed to read contract wasm file: "@
                + cause@,
            FixtureError::DeploymentUnconfirmed { reason } => "Failed to instantiate contract: "@
                + reason.message(),
            FixtureError::CallUnconfirmed { reason } => "Failed to call contract: "@
                + reason.message(),
            FixtureError::QueryFailed { cause } => "Failed to query contract: "@ + cause@,
            FixtureError::EventDecodeFailed { kind } => match kind {
                EventKind::Instantiated => "Failed to decode event data to Instantiated type"@,
                EventKind::ExtrinsicSuccess =>
                    "Failed to decode event data to ExtrinsicSuccess type"@,
            },
            FixtureError::TeardownFailed { cause } => "Failed to kill Substrate Node process: "@
                + cause@,
            FixtureError::InvalidPhase { phase } => "Operation not permitted in phase "@
                + phase.name_spec(),
        }
    }

    /// Renders the failure as text.
    pub fn to_string(&self) -> (text: String)
        ensures
            text@ == self.message(),
    {
        let mut out = String::new();
        match self {
            FixtureError::PortAllocationFailed { role } => match role {
                PortRole::PeerToPeer => out.append("No P2P ports free"),
                PortRole::Client => out.append("No WS ports free"),
            },
            FixtureError::NodeSpawnFailed { p2p_port, ws_port, cause } => {
                out.append("Failed to spawn Substrate Node process p2p_port ");
                append_decimal(&mut out, *p2p_port as u64);
                out.append(" ws_port ");
                append_decimal(&mut out, *ws_port as u64);
                out.append(": ");
                out.append(cause.as_str());
            },
            FixtureError::ConnectionExhausted { attempts, last_error } => {
                out.append("Couldn't connect to node in ");
                append_decimal(&mut out, *attempts as u64);
                out.append(" attempts: ");
                out.append(last_error.as_str());
            },
            FixtureError::BinaryReadFailed { cause } => {
                out.append("Failed to read contract wasm file: ");
                out.append(cause.as_str());
            },
            FixtureError::DeploymentUnconfirmed { reason } => {
                out.append("Failed to instantiate contract: ");
                reason.append_to(&mut out);
            },
            FixtureError::CallUnconfirmed { reason } => {
                out.append("Failed to call contract: ");
                reason.append_to(&mut out);
            },
            FixtureError::QueryFailed { cause } => {
                out.append("Failed to query contract: ");
                out.append(cause.as_str());
            },
            FixtureError::EventDecodeFailed { kind } => match kind {
                EventKind::Instantiated => out.append(
                    "Failed to decode event data to Instantiated type",
                ),
                EventKind::ExtrinsicSuccess => out.append(
                    "Failed to decode event data to ExtrinsicSuccess type",
                ),
            },
            FixtureError::TeardownFailed { cause } => {
                out.append("Failed to kill Substrate Node process: ");
                out.append(cause.as_str());
            },
            FixtureError::InvalidPhase { phase } => {
                out.append("Operation not permitted in phase ");
                out.append(phase.name());
            },
        }
        out
    }
}

} // verus!
