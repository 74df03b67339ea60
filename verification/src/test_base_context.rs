//! The base of a fixture: a running node and a session with it, reached by
//! connection attempts that are spaced by a fixed interval.

use crate::error::FixtureError;
use crate::phase::Phase;
use crate::test_client_context::{endpoint_url, TestClientContext};
use crate::test_node_context::{NodeState, NodeStatus, StopAction, TestNodeContext};
use vstd::prelude::*;
use vstd::string::StringExecFns;

verus! {

/// How often and how far apart a connection is attempted.
#[derive(Clone, Copy, Debug, PartialEq, Eq)]
pub struct RetryPolicy {
    /// The number of attempts after which the fixture gives up. One attempt
    /// is made even where this is zero.
    pub max_attempts: u32,
    /// The wait before each attempt, in milliseconds.
    pub interval_ms: u64,
}

impl Default for RetryPolicy {
    /// Ten attempts, one second apart.
    fn default() -> (policy: RetryPolicy)
        ensures
            policy == (RetryPolicy { max_attempts: 10, interval_ms: 1000 }),
    {
        RetryPolicy { max_attempts: 10, interval_ms: 1000 }
    }
}

impl RetryPolicy {
    /// The number of attempts that the policy allows: `max_attempts`, and at
    /// least one.
    pub open spec fn budget(self) -> u32 {
        if self.max_attempts == 0 {
            1
        } else {
            self.max_attempts
        }
    }

    /// The number of attempts that the policy allows.
    pub fn attempts(&self) -> (n: u32)
        ensures
            n == self.budget(),
    {
        if self.max_attempts == 0 {
            1
        } else {
            self.max_attempts
        }
    }
}

/// What the base of a fixture is: its node and the address of its session.
pub struct BaseState {
    pub node: NodeState,
    pub url: Seq<char>,
}

/// A fixture that is trying to connect.
pub struct ConnectingState {
    pub node: NodeState,
    pub url: Seq<char>,
    pub policy: RetryPolicy,
    /// The attempts made so far, all of which failed.
    pub failures: nat,
}

/// Where one connection attempt leaves the fixture.
pub enum StepState {
    /// The session is established.
    Connected(BaseState),
    /// The attempt failed and another is due after the interval.
    Retry(ConnectingState),
    /// The attempt failed and none is left.
    Exhausted { node: NodeState, error: FixtureError },
}

impl ConnectingState {
    /// A fixture can only be trying while attempts are left.
    pub open spec fn wf(self) -> bool {
        self.failures < self.policy.budget()
    }

    /// The attempts that are left, the one that is due included.
    pub open spec fn attempts_left(self) -> nat {
        (self.policy.budget() - self.failures) as nat
    }

    /// The phase of the fixture.
    pub open spec fn phase(self) -> Phase {
        match self.node.teardown_phase() {
            Some(phase) => phase,
            None => Phase::Connecting,
        }
    }

    /// The fixture after the attempt that was due. Success establishes the
    /// session. A failure is followed by another attempt while the budget
    /// lasts; the failure that uses it up ends the setup with
    /// `ConnectionExhausted`, which carries the cause of that last failure.
    pub open spec fn on_result(self, result: Result<(), String>) -> StepState {
        match result {
            Ok(_) => StepState::Connected(BaseState { node: self.node, url: self.url }),
            Err(cause) => if self.failures + 1 < self.policy.budget() {
                StepState::Retry(ConnectingState { failures: self.failures + 1, ..self })
            } else {
                StepState::Exhausted {
                    node: self.node,
                    error: FixtureError::ConnectionExhausted {
                        attempts: self.policy.budget(),
                        last_error: cause,
                    },
                }
            },
        }
    }

    /// The number of attempts that a run with the given results makes: one
    /// for each result, as long as another attempt is due.
    pub open spec fn attempts_in(self, results: Seq<Result<(), String>>) -> nat
        decreases results.len(),
    {
        if results.len() == 0 {
            0
        } else {
            match self.on_result(results[0]) {
                StepState::Retry(next) => 1 + next.attempts_in(results.drop_first()),
                _ => 1,
            }
        }
    }

    /// The time that a run with the given results spends waiting, in
    /// milliseconds: the whole interval before each of its attempts.
    pub open spec fn waited_ms(self, results: Seq<Result<(), String>>) -> nat {
        self.attempts_in(results) * (self.policy.interval_ms as nat)
    }

    /// The fixture after a run of attempts with the given results, one after
    /// the other, as long as another attempt is due.
    pub open spec fn run(self, results: Seq<Result<(), String>>) -> StepState
        decreases results.len(),
    {
        if results.len() == 0 {
            StepState::Retry(self)
        } else {
            match self.on_result(results[0]) {
                StepState::Retry(next) => next.run(results.drop_first()),
                ended => ended,
            }
        }
    }
}

/// The running node and the established session of a fixture.
#[derive(Debug, PartialEq, Eq)]
pub struct TestBaseContext {
    test_node_context: TestNodeContext,
    test_client_context: TestClientContext,
}

impl View for TestBaseContext {
    type V = BaseState;

    closed spec fn view(&self) -> BaseState {
        BaseState { node: self.test_node_context@, url: self.test_client_context@ }
    }
}

/// A fixture whose node runs and whose session is not yet established.
#[derive(Debug, PartialEq, Eq)]
pub struct Connecting {
    node: TestNodeContext,
    client: TestClientContext,
    policy: RetryPolicy,
    failures: u32,
}

impl View for Connecting {
    type V = ConnectingState;

    closed spec fn view(&self) -> ConnectingState {
        ConnectingState {
            node: self.node@,
            url: self.client@,
            policy: self.policy,
            failures: self.failures as nat,
        }
    }
}

/// The attempt that is due: wait, then connect.
#[derive(Clone, Debug, PartialEq, Eq)]
pub struct ConnectAttempt {
    /// The wait before the attempt, in milliseconds.
    pub wait_ms: u64,
    /// The address to connect to.
    pub url: String,
}

/// Where one connection attempt leaves the fixture.
#[derive(Debug, PartialEq, Eq)]
pub enum ConnectStep {
    /// The session is established.
    Connected(TestBaseContext),
    /// The attempt failed and another is due after the interval.
    Retry(Connecting),
    /// The attempt failed and none is left. The node is handed back to be
    /// shut down.
    Exhausted { node: TestNodeContext, error: FixtureError },
}

impl View for ConnectStep {
    type V = StepState;

    open spec fn view(&self) -> StepState {
        match *self {
            ConnectStep::Connected(base) => StepState::Connected(base@),
            ConnectStep::Retry(connecting) => StepState::Retry(connecting@),
            ConnectStep::Exhausted { node, error } => StepState::Exhausted { node: node@, error },
        }
    }
}

impl Connecting {
    #[verifier::type_invariant]
    spec fn attempts_remain(self) -> bool {
        self@.wf()
    }

    /// The attempt that is due. Every attempt, the first one too, comes
    /// after a wait of the whole interval.
    pub fn next_attempt(&self) -> (attempt: ConnectAttempt)
        ensures
            self@.wf(),
            attempt.wait_ms == self@.policy.interval_ms,
            attempt.url@ == self@.url,
    {
        proof {
            use_type_invariant(self);
        }
        ConnectAttempt {
            wait_ms: self.policy.interval_ms,
            url: String::from_str(self.client.url()),
        }
    }

    /// The phase of the fixture: `Connecting`, unless the node has been told
    /// to stop.
    pub fn phase(&self) -> (phase: Phase)
        ensures
            phase == self@.phase(),
    {
        match self.node.get_status() {
            NodeStatus::Running => Phase::Connecting,
            NodeStatus::Stopping => Phase::TearingDown,
            NodeStatus::Stopped => Phase::Terminated,
        }
    }

    /// The number of attempts that have failed so far.
    pub fn failures(&self) -> (n: u32)
        ensures
            n == self@.failures,
    {
        self.failures
    }

    /// Takes the result of the attempt that was due and says how the setup
    /// goes on.
    pub fn on_result(self, result: Result<(), String>) -> (step: ConnectStep)
        ensures
            step@ == self@.on_result(result),
    {
        proof {
            use_type_invariant(&self);
        }
        let budget = self.policy.attempts();
        match result {
            Ok(_) => ConnectStep::Connected(
                TestBaseContext {
                    test_node_context: self.node,
                    test_client_context: self.client,
                },
            ),
            Err(cause) => {
                if self.failures + 1 < budget {
                    ConnectStep::Retry(
                        Connecting {
                            node: self.node,
                            client: self.client,
                            policy: self.policy,
                            failures: self.failures + 1,
                        },
                    )
                } else {
                    ConnectStep::Exhausted {
                        node: self.node,
                        error: FixtureError::ConnectionExhausted {
                            attempts: budget,
                            last_error: cause,
                        },
                    }
                }
            },
        }
    }

    /// Gives up connecting and hands the node back to be shut down.
    pub fn abandon(self) -> (node: TestNodeContext)
        ensures
            node@ == self@.node,
    {
        self.node
    }
}

impl TestBaseContext {
    /// Begins the setup of a fixture on a launched node: the session will
    /// target the client endpoint of the node on `host`, and no attempt has
    /// been made yet.
    pub fn setup(node: TestNodeContext, host: &str, policy: RetryPolicy) -> (connecting: Connecting)
        ensures
            connecting@ == (ConnectingState {
                node: node@,
                url: endpoint_url(host@, node@.ws_port),
                policy,
                failures: 0,
            }),
            connecting@.wf(),
    {
        let client = TestClientContext::new(host, node.get_ws_port());
        Connecting { node, client, policy, failures: 0 }
    }

    /// The node of the fixture.
    pub fn node(&self) -> (node: &TestNodeContext)
        ensures
            node@ == self@.node,
    {
        &self.test_node_context
    }

    /// The session of the fixture.
    pub fn client(&self) -> (client: &TestClientContext)
        ensures
            client@ == self@.url,
    {
        &self.test_client_context
    }

    /// Asks for the node to be stopped and says what to do to the process.
    pub fn shutdown(&mut self) -> (action: StopAction)
        ensures
            final(self)@.url == old(self)@.url,
            (final(self)@.node, action) == old(self)@.node.after_shutdown(),
        no_unwind
    {
        self.test_node_context.shutdown()
    }

    /// Records how the wait for the exit ended and says what is left to do.
    pub fn finish_shutdown(&mut self, exited: bool) -> (action: StopAction)
        ensures
            final(self)@.url == old(self)@.url,
            (final(self)@.node, action) == old(self)@.node.after_wait(exited),
        no_unwind
    {
        self.test_node_context.finish_shutdown(exited)
    }
}

/// A fixture whose endpoint becomes ready within the retry budget connects:
/// if the attempts before the `k`-th fail, the `k`-th succeeds, and the
/// budget reaches that far, the run ends with the session established on
/// the same node and address, after `k + 1` attempts and as many intervals
/// of waiting.
pub proof fn lemma_connects_once_ready(
    connecting: ConnectingState,
    results: Seq<Result<(), String>>,
    k: int,
)
    requires
        connecting.wf(),
        0 <= k < results.len(),
        k < connecting.attempts_left(),
        forall|i: int| 0 <= i < k ==> (#[trigger] results[i]) is Err,
        results[k] is Ok,
    ensures
        connecting.run(results) == StepState::Connected(
            BaseState { node: connecting.node, url: connecting.url },
        ),
        connecting.attempts_in(results) == k + 1,
        connecting.waited_ms(results) == (k + 1) * connecting.policy.interval_ms,
    decreases k,
{
    if k > 0 {
        let next = ConnectingState { failures: connecting.failures + 1, ..connecting };
        let rest = results.drop_first();
        lemma_connects_once_ready(next, rest, k - 1);
    }
}

/// A fixture whose endpoint never becomes ready gives up when the budget is
/// used up, and not before: if every attempt that the budget allows fails,
/// the run ends with `ConnectionExhausted`, which counts the attempts of the
/// budget and carries the cause of the last of them. By then the fixture has
/// made the attempts that were left, and waited the interval for each.
pub proof fn lemma_exhausted_if_never_ready(
    connecting: ConnectingState,
    results: Seq<Result<(), String>>,
)
    requires
        connecting.wf(),
        results.len() >= connecting.attempts_left(),
        forall|i: int| 0 <= i < connecting.attempts_left() ==> (#[trigger] results[i]) is Err,
    ensures
        connecting.run(results) == (StepState::Exhausted {
            node: connecting.node,
            error: FixtureError::ConnectionExhausted {
                attempts: connecting.policy.budget(),
                last_error: results[connecting.attempts_left() - 1]->Err_0,
            },
        }),
        connecting.attempts_in(results) == connecting.attempts_left(),
        connecting.waited_ms(results) == connecting.attempts_left()
            * connecting.policy.interval_ms,
    decreases connecting.attempts_left(),
{
    if connecting.failures + 1 < connecting.policy.budget() {
        let next = ConnectingState { failures: connecting.failures + 1, ..connecting };
        let rest = results.drop_first();
        lemma_exhausted_if_never_ready(next, rest);
    }
}

/// While the budget lasts, failures are answered by another attempt: after
/// fewer failures than attempts are left, the fixture is still trying, with
/// those failures counted.
pub proof fn lemma_retries_while_budget_lasts(
    connecting: ConnectingState,
    results: Seq<Result<(), String>>,
)
    requires
        connecting.wf(),
        results.len() < connecting.attempts_left(),
        forall|i: int| 0 <= i < results.len() ==> (#[trigger] results[i]) is Err,
    ensures
        connecting.run(results) == StepState::Retry(
            ConnectingState { failures: connecting.failures + results.len(), ..connecting },
        ),
    decreases results.len(),
{
    if results.len() > 0 {
        let next = ConnectingState { failures: connecting.failures + 1, ..connecting };
        let rest = results.drop_first();
        lemma_retries_while_budget_lasts(next, rest);
    }
}

} // verus!
