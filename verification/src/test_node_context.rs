//! The node process of a fixture: the ports it is launched with, its
//! command line, and the decisions of its shutdown.

use crate::decimal::{append_decimal, decimal};
use crate::error::{FixtureError, PortRole};
use crate::phase::Phase;
use vstd::prelude::*;
use vstd::string::StringExecFns;

verus! {

/// A local port number.
pub type Port = u16;

/// The arguments that put a node into development mode with an externally
/// reachable client endpoint, listening on the two ports.
pub open spec fn launch_args(p2p_port: Port, ws_port: Port) -> Seq<Seq<char>> {
    seq![
        "--dev"@,
        "--ws-external"@,
        "--port="@ + decimal(p2p_port as nat),
        "--ws-port="@ + decimal(ws_port as nat),
    ]
}

/// The plan of a node launch: the program and the ports it will listen on.
#[derive(Clone, Copy, Debug, PartialEq, Eq)]
pub struct NodeLaunch {
    pub p2p_port: Port,
    pub ws_port: Port,
}

impl NodeLaunch {
    /// Plans a launch on the ports that were picked. A port that could not
    /// be picked fails the plan; the peer-to-peer port is looked at first.
    pub fn new(p2p_port: Option<Port>, ws_port: Option<Port>) -> (plan: Result<
        NodeLaunch,
        FixtureError,
    >)
        ensures
            plan == (match (p2p_port, ws_port) {
                (None, _) => Err::<NodeLaunch, FixtureError>(
                    FixtureError::PortAllocationFailed { role: PortRole::PeerToPeer },
                ),
                (Some(_), None) => Err(
                    FixtureError::PortAllocationFailed { role: PortRole::Client },
                ),
                (Some(p2p), Some(ws)) => Ok(NodeLaunch { p2p_port: p2p, ws_port: ws }),
            }),
    {
        match p2p_port {
            None => Err(FixtureError::PortAllocationFailed { role: PortRole::PeerToPeer }),
            Some(p2p) => match ws_port {
                None => Err(FixtureError::PortAllocationFailed { role: PortRole::Client }),
                Some(ws) => Ok(NodeLaunch { p2p_port: p2p, ws_port: ws }),
            },
        }
    }

    /// The name of the node executable.
    pub fn program(&self) -> (name: &'static str)
        ensures
            name@ == "substrate-contracts-node"@,
    {
        "substrate-contracts-node"
    }

    /// The arguments of the node executable.
    pub fn args(&self) -> (args: Vec<String>)
        ensures
            args.deep_view() == launch_args(self.p2p_port, self.ws_port),
    {
        let mut port = String::from_str("--port=");
        append_decimal(&mut port, self.p2p_port as u64);
        let mut ws_port = String::from_str("--ws-port=");
        append_decimal(&mut ws_port, self.ws_port as u64);
        let mut args: Vec<String> = Vec::new();
        args.push(String::from_str("--dev"));
        args.push(String::from_str("--ws-external"));
        args.push(port);
        args.push(ws_port);
        args
    }
}

/// Whether the node process runs.
#[derive(Clone, Copy, Debug, PartialEq, Eq, Structural)]
pub enum NodeStatus {
    /// The process runs and has not been told to stop.
    Running,
    /// The process has been told to stop and may still run.
    Stopping,
    /// The process is gone.
    Stopped,
}

/// What has to be done to the node process.
#[derive(Clone, Copy, Debug, PartialEq, Eq, Structural)]
pub enum StopAction {
    /// Send the termination signal, then wait for the exit up to the grace
    /// period.
    Terminate,
    /// Kill the process.
    ForceKill,
    /// Leave the process alone.
    Nothing,
}

/// What a launched node is to the fixture: its ports and how far its
/// shutdown has come.
#[derive(Clone, Copy, Debug, PartialEq, Eq)]
pub struct NodeState {
    pub p2p_port: Port,
    pub ws_port: Port,
    pub status: NodeStatus,
}

impl NodeState {
    /// The phase that teardown has put the fixture in, if it has begun.
    pub open spec fn teardown_phase(self) -> Option<Phase> {
        match self.status {
            NodeStatus::Running => None,
            NodeStatus::Stopping => Some(Phase::TearingDown),
            NodeStatus::Stopped => Some(Phase::Terminated),
        }
    }

    /// The node after a request to stop it, and what the request asks for.
    /// Only a running node is signalled.
    pub open spec fn after_shutdown(self) -> (NodeState, StopAction) {
        match self.status {
            NodeStatus::Running => (
                NodeState { status: NodeStatus::Stopping, ..self },
                StopAction::Terminate,
            ),
            _ => (self, StopAction::Nothing),
        }
    }

    /// The node after the wait for its exit has ended, and what is left to
    /// do. A node that did not exit within the grace period is killed.
    pub open spec fn after_wait(self, exited: bool) -> (NodeState, StopAction) {
        match self.status {
            NodeStatus::Stopping => (
                NodeState { status: NodeStatus::Stopped, ..self },
                if exited {
                    StopAction::Nothing
                } else {
                    StopAction::ForceKill
                },
            ),
            _ => (self, StopAction::Nothing),
        }
    }
}

/// A launched node. Its state changes through `shutdown` and
/// `finish_shutdown` alone.
#[derive(Debug, PartialEq, Eq)]
pub struct TestNodeContext {
    state: NodeState,
}

impl View for TestNodeContext {
    type V = NodeState;

    closed spec fn view(&self) -> NodeState {
        self.state
    }
}

impl TestNodeContext {
    /// Records the outcome of the launch. A launch that failed yields
    /// `NodeSpawnFailed` with the ports and the cause; one that succeeded
    /// yields the running node.
    pub fn new(launch: NodeLaunch, spawned: Result<(), String>) -> (node: Result<
        TestNodeContext,
        FixtureError,
    >)
        ensures
            match spawned {
                Ok(_) => node matches Ok(n) && n@ == (NodeState {
                    p2p_port: launch.p2p_port,
                    ws_port: launch.ws_port,
                    status: NodeStatus::Running,
                }),
                Err(cause) => node == Err::<TestNodeContext, FixtureError>(
                    FixtureError::NodeSpawnFailed {
                        p2p_port: launch.p2p_port,
                        ws_port: launch.ws_port,
                        cause,
                    },
                ),
            },
    {
        match spawned {
            Ok(_) => Ok(
                TestNodeContext {
                    state: NodeState {
                        p2p_port: launch.p2p_port,
                        ws_port: launch.ws_port,
                        status: NodeStatus::Running,
                    },
                },
            ),
            Err(cause) => Err(
                FixtureError::NodeSpawnFailed {
                    p2p_port: launch.p2p_port,
                    ws_port: launch.ws_port,
                    cause,
                },
            ),
        }
    }

    /// Asks for the node to be stopped and says what to do to the process.
    pub fn shutdown(&mut self) -> (action: StopAction)
        ensures
            (final(self)@, action) == old(self)@.after_shutdown(),
        no_unwind
    {
        match self.state.status {
            NodeStatus::Running => {
                self.state.status = NodeStatus::Stopping;
                StopAction::Terminate
            },
            _ => StopAction::Nothing,
        }
    }

    /// Records how the wait for the exit ended and says what is left to do.
    pub fn finish_shutdown(&mut self, exited: bool) -> (action: StopAction)
        ensures
            (final(self)@, action) == old(self)@.after_wait(exited),
        no_unwind
    {
        match self.state.status {
            NodeStatus::Stopping => {
                self.state.status = NodeStatus::Stopped;
                if exited {
                    StopAction::Nothing
                } else {
                    StopAction::ForceKill
                }
            },
            _ => StopAction::Nothing,
        }
    }

    /// What the outcome of a kill amounts to. A kill that failed is a
    /// failure of the teardown, which is reported and does not fail the
    /// test.
    pub fn kill_outcome(killed: Result<(), String>) -> (report: Option<FixtureError>)
        ensures
            report == (match killed {
                Ok(_) => None,
                Err(cause) => Some(FixtureError::TeardownFailed { cause }),
            }),
            report matches Some(error) ==> !error.fatal(),
    {
        match killed {
            Ok(_) => None,
            Err(cause) => Some(FixtureError::TeardownFailed { cause }),
        }
    }

    /// The port on which the node accepts client connections.
    pub fn get_ws_port(&self) -> (port: Port)
        ensures
            port == self@.ws_port,
    {
        self.state.ws_port
    }

    /// The port on which the node accepts peers.
    pub fn get_p2p_port(&self) -> (port: Port)
        ensures
            port == self@.p2p_port,
    {
        self.state.p2p_port
    }

    /// How far the shutdown of the node has come.
    pub fn get_status(&self) -> (status: NodeStatus)
        ensures
            status == self@.status,
    {
        self.state.status
    }
}

/// Stopping a node twice is stopping it once: the second request changes
/// nothing and asks for nothing.
pub proof fn lemma_shutdown_idempotent(node: NodeState)
    ensures
        node.after_shutdown().0.after_shutdown() == (node.after_shutdown().0, StopAction::Nothing),
{
}

/// A shutdown keeps the ports and never brings a node back to life.
pub proof fn lemma_shutdown_keeps_ports(node: NodeState, exited: bool)
    ensures
        node.after_shutdown().0.p2p_port == node.p2p_port,
        node.after_shutdown().0.ws_port == node.ws_port,
        !(node.after_shutdown().0.status is Running),
        node.after_wait(exited).0.p2p_port == node.p2p_port,
        node.after_wait(exited).0.ws_port == node.ws_port,
        node.after_wait(exited).0.status is Running <==> node.status is Running,
{
}

} // verus!
