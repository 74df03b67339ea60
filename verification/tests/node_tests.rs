use test_common::error::{FixtureError, PortRole};
use test_common::test_client_context::TestClientContext;
use test_common::test_node_context::{NodeLaunch, NodeStatus, StopAction, TestNodeContext};

fn running_node(p2p_port: u16, ws_port: u16) -> TestNodeContext {
    let launch = NodeLaunch::new(Some(p2p_port), Some(ws_port)).expect("ports were given");
    TestNodeContext::new(launch, Ok(())).expect("launch succeeded")
}

#[test]
fn launch_plan_keeps_the_ports() {
    let launch = NodeLaunch::new(Some(30333), Some(9944)).unwrap();
    assert_eq!(launch.p2p_port, 30333);
    assert_eq!(launch.ws_port, 9944);
}

#[test]
fn launch_plan_fails_without_p2p_port() {
    assert_eq!(
        NodeLaunch::new(None, Some(9944)),
        Err(FixtureError::PortAllocationFailed { role: PortRole::PeerToPeer })
    );
}

#[test]
fn launch_plan_fails_without_ws_port() {
    assert_eq!(
        NodeLaunch::new(Some(30333), None),
        Err(FixtureError::PortAllocationFailed { role: PortRole::Client })
    );
}

#[test]
fn launch_plan_reports_p2p_port_first() {
    assert_eq!(
        NodeLaunch::new(None, None),
        Err(FixtureError::PortAllocationFailed { role: PortRole::PeerToPeer })
    );
}

#[test]
fn launch_program_is_the_contracts_node() {
    let launch = NodeLaunch::new(Some(1), Some(2)).unwrap();
    assert_eq!(launch.program(), "substrate-contracts-node");
}

#[test]
fn launch_args_select_dev_mode_and_ports() {
    let launch = NodeLaunch::new(Some(30333), Some(9944)).unwrap();
    assert_eq!(
        launch.args(),
        vec!["--dev", "--ws-external", "--port=30333", "--ws-port=9944"]
    );
}

#[test]
fn launch_args_for_extreme_ports() {
    let launch = NodeLaunch::new(Some(0), Some(65535)).unwrap();
    assert_eq!(launch.args(), vec!["--dev", "--ws-external", "--port=0", "--ws-port=65535"]);
}

#[test]
fn launched_node_is_running_on_its_ports() {
    let node = running_node(30333, 9944);
    assert_eq!(node.get_ws_port(), 9944);
    assert_eq!(node.get_p2p_port(), 30333);
    assert_eq!(node.get_status(), NodeStatus::Running);
}

#[test]
fn failed_launch_reports_ports_and_cause() {
    let launch = NodeLaunch::new(Some(30333), Some(9944)).unwrap();
    let node = TestNodeContext::new(launch, Err(String::from("No such file or directory")));
    assert_eq!(
        node,
        Err(FixtureError::NodeSpawnFailed {
            p2p_port: 30333,
            ws_port: 9944,
            cause: String::from("No such file or directory"),
        })
    );
}

#[test]
fn shutdown_of_running_node_asks_to_terminate() {
    let mut node = running_node(1000, 2000);
    assert_eq!(node.shutdown(), StopAction::Terminate);
    assert_eq!(node.get_status(), NodeStatus::Stopping);
    assert_eq!(node.get_ws_port(), 2000);
    assert_eq!(node.get_p2p_port(), 1000);
}

#[test]
fn shutdown_twice_is_shutdown_once() {
    let mut node = running_node(1000, 2000);
    assert_eq!(node.shutdown(), StopAction::Terminate);
    assert_eq!(node.shutdown(), StopAction::Nothing);
    assert_eq!(node.get_status(), NodeStatus::Stopping);
    assert_eq!(node.finish_shutdown(true), StopAction::Nothing);
    assert_eq!(node.shutdown(), StopAction::Nothing);
    assert_eq!(node.shutdown(), StopAction::Nothing);
    assert_eq!(node.get_status(), NodeStatus::Stopped);
}

#[test]
fn node_that_exits_in_time_is_left_alone() {
    let mut node = running_node(1000, 2000);
    node.shutdown();
    assert_eq!(node.finish_shutdown(true), StopAction::Nothing);
    assert_eq!(node.get_status(), NodeStatus::Stopped);
}

#[test]
fn node_that_outlasts_the_grace_period_is_killed() {
    let mut node = running_node(1000, 2000);
    node.shutdown();
    assert_eq!(node.finish_shutdown(false), StopAction::ForceKill);
    assert_eq!(node.get_status(), NodeStatus::Stopped);
    assert_eq!(node.finish_shutdown(false), StopAction::Nothing);
}

#[test]
fn wait_outcome_without_shutdown_changes_nothing() {
    let mut node = running_node(1000, 2000);
    assert_eq!(node.finish_shutdown(false), StopAction::Nothing);
    assert_eq!(node.get_status(), NodeStatus::Running);
}

#[test]
fn client_targets_websocket_endpoint() {
    let client = TestClientContext::new("127.0.0.1", 9944);
    assert_eq!(client.url(), "ws://127.0.0.1:9944");
}

#[test]
fn client_endpoint_for_named_host() {
    let client = TestClientContext::new("substrate-contracts-node", 65535);
    assert_eq!(client.url(), "ws://substrate-contracts-node:65535");
    assert_eq!(TestClientContext::new("localhost", 0).url(), "ws://localhost:0");
}

#[test]
fn kill_that_worked_leaves_nothing_to_report() {
    assert_eq!(TestNodeContext::kill_outcome(Ok(())), None);
}

#[test]
fn kill_that_failed_is_a_teardown_failure() {
    let report = TestNodeContext::kill_outcome(Err(String::from("no such process")));
    assert_eq!(
        report,
        Some(FixtureError::TeardownFailed { cause: String::from("no such process") })
    );
    assert!(!report.unwrap().is_fatal());
}
