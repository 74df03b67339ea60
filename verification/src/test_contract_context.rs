//! The contract of a fixture: its deployment, the calls on it, and the
//! evidence that the ledger gives for each.

use crate::account::AccountId32;
use crate::error::{FixtureError, Unconfirmed};
use crate::events::{find_event, lemma_search_finds_kind, search, Event, EventKind};
use crate::exec_input::ExecInput;
use crate::phase::Phase;
use crate::selector::selector_of;
use crate::test_base_context::{BaseState, TestBaseContext};
use crate::test_node_context::{NodeStatus, StopAction};
use parity_scale_codec::Encode;
use rand::Rng;
use vstd::prelude::*;

verus! {

/// Number of bytes in the salt of a deployment.
pub const SALT_LEN: usize = 32;

/// Draws a salt from `rand`'s thread-local generator with `Rng::gen`. The
/// bytes depend on chance, so nothing is said of them. The generator aborts
/// the process if the system cannot seed it.
#[verifier::external_body]
fn fresh_salt() -> (salt: [u8; 32]) {
    rand::thread_rng().gen::<[u8; 32]>()
}

/// Encodes a salt with the `Encode` impl that `parity_scale_codec` gives to
/// byte arrays: the bytes as they are, without a length in front.
#[verifier::external_body]
fn encode_salt(salt: &[u8; 32]) -> (out: Vec<u8>)
    ensures
        out@ == salt@,
{
    salt.encode()
}

/// The flag with which a contract says that it reverted.
pub const REVERT_FLAG: u32 = 1;

/// What a contract execution returned.
#[derive(Clone, Debug, PartialEq, Eq)]
pub struct ExecReturnValue {
    /// The flags that the contract set.
    pub flags: u32,
    /// The raw output of the contract.
    pub data: Vec<u8>,
}

impl ExecReturnValue {
    /// An execution succeeded if the contract did not revert.
    pub open spec fn success(self) -> bool {
        self.flags & REVERT_FLAG == 0
    }

    /// Whether the execution succeeded.
    pub fn is_success(&self) -> (b: bool)
        ensures
            b == self.success(),
    {
        self.flags & REVERT_FLAG == 0
    }
}

/// The answer of the ledger to a read-only call. An execution that failed
/// is an answer like any other: `result` says so.
#[derive(Debug, PartialEq, Eq)]
pub struct ContractExecResult {
    /// The gas that the execution used.
    pub gas_consumed: u64,
    /// What the contract returned, or why the ledger did not execute it.
    pub result: Result<ExecReturnValue, String>,
}

impl ContractExecResult {
    /// The call succeeded if the contract was executed and did not revert.
    pub open spec fn success(self) -> bool {
        self.result matches Ok(value) && value.success()
    }

    /// Whether the call succeeded.
    pub fn is_success(&self) -> (b: bool)
        ensures
            b == self.success(),
    {
        match &self.result {
            Ok(value) => value.is_success(),
            Err(_) => false,
        }
    }
}

/// A deployment to submit: the signed transaction that instantiates a
/// contract from its code.
#[derive(Clone, Debug, PartialEq, Eq)]
pub struct InstantiateRequest {
    /// The balance that the new contract starts with.
    pub endowment: u128,
    /// The gas that the deployment may use.
    pub gas_limit: u64,
    /// The contract binary.
    pub code: Vec<u8>,
    /// The encoded constructor input.
    pub data: Vec<u8>,
    /// The encoded salt.
    pub salt: Vec<u8>,
    /// The account that signs the transaction.
    pub signer: AccountId32,
}

impl InstantiateRequest {
    /// The request carries exactly these values.
    pub open spec fn carries(
        self,
        endowment: u128,
        gas_limit: u64,
        code: Seq<u8>,
        data: Seq<u8>,
        salt: Seq<u8>,
        signer: AccountId32,
    ) -> bool {
        &&& self.endowment == endowment
        &&& self.gas_limit == gas_limit
        &&& self.code@ == code
        &&& self.data@ == data
        &&& self.salt@ == salt
        &&& self.signer == signer
    }
}

/// A mutating call to submit: the signed transaction that calls the
/// contract.
#[derive(Clone, Debug, PartialEq, Eq)]
pub struct ExtrinsicCall {
    /// The address of the contract.
    pub dest: AccountId32,
    /// The balance that is transferred with the call.
    pub value: u128,
    /// The gas that the call may use.
    pub gas_limit: u64,
    /// The encoded input.
    pub data: Vec<u8>,
    /// The account that signs the transaction.
    pub signer: AccountId32,
}

impl ExtrinsicCall {
    /// The call carries exactly these values.
    pub open spec fn carries(
        self,
        dest: AccountId32,
        value: u64,
        gas_limit: u64,
        data: Seq<u8>,
        signer: AccountId32,
    ) -> bool {
        &&& self.dest == dest
        &&& self.value == value
        &&& self.gas_limit == gas_limit
        &&& self.data@ == data
        &&& self.signer == signer
    }
}

/// A read-only call to send: the state query that executes the contract
/// against the latest state.
#[derive(Clone, Debug, PartialEq, Eq)]
pub struct CallRequest {
    /// The account in whose name the contract is executed.
    pub origin: AccountId32,
    /// The address of the contract.
    pub dest: AccountId32,
    /// The balance that is transferred with the call.
    pub value: u64,
    /// The gas that the call may use.
    pub gas_limit: u64,
    /// The encoded input.
    pub input_data: Vec<u8>,
}

impl CallRequest {
    /// The request carries exactly these values.
    pub open spec fn carries(
        self,
        origin: AccountId32,
        dest: AccountId32,
        value: u64,
        gas_limit: u64,
        input_data: Seq<u8>,
    ) -> bool {
        &&& self.origin == origin
        &&& self.dest == dest
        &&& self.value == value
        &&& self.gas_limit == gas_limit
        &&& self.input_data@ == input_data
    }
}

/// The operation whose outcome a fixture is waiting for.
#[derive(Clone, Copy, Debug, PartialEq, Eq, Structural)]
pub enum Pending {
    /// None.
    Idle,
    /// A deployment.
    Deployment,
    /// A read-only call.
    Query,
    /// A mutating call.
    Extrinsic,
}

/// One step of a fixture that has a session.
pub enum Step {
    /// A deployment is asked for, with the contract binary or the reason why
    /// it could not be read.
    Deploy { code: Result<Vec<u8>, String> },
    /// The submitted deployment has ended with these events, or failed.
    Deployed { outcome: Result<Vec<Event>, String> },
    /// A read-only call is asked for.
    Query,
    /// The read-only call has been answered or has failed.
    QueryReturned,
    /// A mutating call is asked for.
    Call,
    /// The submitted call has ended.
    CallEnded,
    /// The node is asked to stop.
    Shutdown,
    /// The wait for the node's exit has ended.
    ShutdownWaited { exited: bool },
}

/// What the events of a deployment show: the address of the new contract,
/// if an `Instantiated` event and an `ExtrinsicSuccess` event are both
/// there. The `Instantiated` event is looked for first.
pub open spec fn deployment_evidence(outcome: Result<Vec<Event>, String>) -> Result<
    AccountId32,
    FixtureError,
> {
    match outcome {
        Err(cause) => Err(
            FixtureError::DeploymentUnconfirmed { reason: Unconfirmed::NotFinalized { cause } },
        ),
        Ok(events) => match search(events@, EventKind::Instantiated) {
            Err(e) => Err(e),
            Ok(None) => Err(
                FixtureError::DeploymentUnconfirmed { reason: Unconfirmed::InstantiatedMissing },
            ),
            Ok(Some(instantiated)) => match search(events@, EventKind::ExtrinsicSuccess) {
                Err(e) => Err(e),
                Ok(None) => Err(
                    FixtureError::DeploymentUnconfirmed { reason: Unconfirmed::SuccessMissing },
                ),
                Ok(Some(_)) => Ok(instantiated->contract),
            },
        },
    }
}

/// What the events of a mutating call show: that it succeeded, if an
/// `ExtrinsicSuccess` event is there.
pub open spec fn call_evidence(outcome: Result<Vec<Event>, String>) -> Result<(), FixtureError> {
    match outcome {
        Err(cause) => Err(
            FixtureError::CallUnconfirmed { reason: Unconfirmed::NotFinalized { cause } },
        ),
        Ok(events) => match search(events@, EventKind::ExtrinsicSuccess) {
            Err(e) => Err(e),
            Ok(None) => Err(FixtureError::CallUnconfirmed { reason: Unconfirmed::SuccessMissing }),
            Ok(Some(_)) => Ok(()),
        },
    }
}

/// What the answer to a read-only call amounts to: a failure in transport
/// is `QueryFailed`; any answer of the ledger is handed on as it is.
pub open spec fn query_evidence(response: Result<ContractExecResult, String>) -> Result<
    ContractExecResult,
    FixtureError,
> {
    match response {
        Err(cause) => Err(FixtureError::QueryFailed { cause }),
        Ok(answer) => Ok(answer),
    }
}

/// What a fixture with a session is: its base, the address of its contract
/// once deployed, and the operation under way.
pub struct ContractState {
    pub base: BaseState,
    pub contract_address: Option<AccountId32>,
    pub pending: Pending,
}

impl ContractState {
    /// A deployment is under way only while there is no contract, and a call
    /// only while there is one.
    pub open spec fn wf(self) -> bool {
        match self.pending {
            Pending::Idle => true,
            Pending::Deployment => self.contract_address is None,
            Pending::Query | Pending::Extrinsic => self.contract_address is Some,
        }
    }

    /// The phase of the fixture.
    pub open spec fn phase(self) -> Phase {
        match self.base.node.teardown_phase() {
            Some(phase) => phase,
            None => match self.pending {
                Pending::Deployment => Phase::Deploying,
                Pending::Query | Pending::Extrinsic => Phase::Calling,
                Pending::Idle => if self.contract_address is Some {
                    Phase::Ready
                } else {
                    Phase::Connected
                },
            },
        }
    }

    /// Why the step is refused in this state, if it is. A deployment needs a
    /// binary, which is looked at first, and the phase `Connected`; a call
    /// needs the phase `Ready`; an outcome is taken only of the operation
    /// that is under way. Teardown is never refused.
    pub open spec fn refusal(self, step: Step) -> Option<FixtureError> {
        let wrong_phase = Some(FixtureError::InvalidPhase { phase: self.phase() });
        match step {
            Step::Deploy { code } => match code {
                Err(cause) => Some(FixtureError::BinaryReadFailed { cause }),
                Ok(_) => if self.phase() is Connected {
                    None
                } else {
                    wrong_phase
                },
            },
            Step::Deployed { .. } => if self.phase() is Deploying {
                None
            } else {
                wrong_phase
            },
            Step::Query | Step::Call => if self.phase() is Ready {
                None
            } else {
                wrong_phase
            },
            Step::QueryReturned => if self.phase() is Calling && self.pending is Query {
                None
            } else {
                wrong_phase
            },
            Step::CallEnded => if self.phase() is Calling && self.pending is Extrinsic {
                None
            } else {
                wrong_phase
            },
            Step::Shutdown | Step::ShutdownWaited { .. } => None,
        }
    }

    /// The fixture after the step. A refused step changes nothing. A
    /// deployment gives the fixture its contract if the evidence is there,
    /// and leaves it without one otherwise.
    pub open spec fn after(self, step: Step) -> ContractState {
        if self.refusal(step) is Some {
            self
        } else {
            match step {
                Step::Deploy { .. } => ContractState { pending: Pending::Deployment, ..self },
                Step::Deployed { outcome } => match deployment_evidence(outcome) {
                    Ok(address) => ContractState {
                        contract_address: Some(address),
                        pending: Pending::Idle,
                        ..self
                    },
                    Err(_) => ContractState { pending: Pending::Idle, ..self },
                },
                Step::Query => ContractState { pending: Pending::Query, ..self },
                Step::Call => ContractState { pending: Pending::Extrinsic, ..self },
                Step::QueryReturned | Step::CallEnded => ContractState {
                    pending: Pending::Idle,
                    ..self
                },
                Step::Shutdown => ContractState {
                    base: BaseState { node: self.base.node.after_shutdown().0, ..self.base },
                    ..self
                },
                Step::ShutdownWaited { exited } => ContractState {
                    base: BaseState { node: self.base.node.after_wait(exited).0, ..self.base },
                    ..self
                },
            }
        }
    }
}

/// A fixture with a session: the base, and the contract once it is deployed.
#[derive(Debug, PartialEq, Eq)]
pub struct TestContractContext {
    test_base_context: TestBaseContext,
    contract_address: Option<AccountId32>,
    pending: Pending,
}

impl View for TestContractContext {
    type V = ContractState;

    closed spec fn view(&self) -> ContractState {
        ContractState {
            base: self.test_base_context@,
            contract_address: self.contract_address,
            pending: self.pending,
        }
    }
}

impl TestContractContext {
    #[verifier::type_invariant]
    spec fn well_formed(self) -> bool {
        self@.wf()
    }

    /// The fixture on the given base, without a contract.
    pub fn new(test_base_context: TestBaseContext) -> (ctx: TestContractContext)
        ensures
            ctx@ == (ContractState {
                base: test_base_context@,
                contract_address: None,
                pending: Pending::Idle,
            }),
    {
        TestContractContext { test_base_context, contract_address: None, pending: Pending::Idle }
    }

    /// The input that calls the method of the given name without arguments.
    pub fn create_exec_input(method: &str) -> (input: ExecInput)
        ensures
            input.selector_spec()@ == selector_of(method@),
            input.args_spec() == Seq::<u8>::empty(),
    {
        ExecInput::for_method(method)
    }

    /// The base of the fixture.
    pub fn base(&self) -> (base: &TestBaseContext)
        ensures
            base@ == self@.base,
    {
        &self.test_base_context
    }

    /// The address of the contract, once it is deployed.
    pub fn contract_address(&self) -> (address: Option<AccountId32>)
        ensures
            address == self@.contract_address,
    {
        self.contract_address
    }

    /// The operation whose outcome the fixture is waiting for.
    pub fn pending(&self) -> (pending: Pending)
        ensures
            pending == self@.pending,
    {
        self.pending
    }

    /// The phase of the fixture.
    pub fn phase(&self) -> (phase: Phase)
        ensures
            phase == self@.phase(),
    {
        match self.test_base_context.node().get_status() {
            NodeStatus::Stopping => Phase::TearingDown,
            NodeStatus::Stopped => Phase::Terminated,
            NodeStatus::Running => match self.pending {
                Pending::Deployment => Phase::Deploying,
                Pending::Query | Pending::Extrinsic => Phase::Calling,
                Pending::Idle => if self.contract_address.is_some() {
                    Phase::Ready
                } else {
                    Phase::Connected
                },
            },
        }
    }

    /// Prepares the deployment of a contract with a given salt. `code` is
    /// the contract binary, or why it could not be read.
    ///
    /// A binary that could not be read fails with `BinaryReadFailed`; a
    /// fixture that is not in the phase `Connected` fails with
    /// `InvalidPhase`; in both cases the fixture stays as it is. Otherwise
    /// the fixture is `Deploying`, and the request carries the arguments,
    /// the encoded constructor input and the salt.
    pub fn instantiate_with_salt(
        &mut self,
        endowment: u128,
        gas_limit: u64,
        code: Result<Vec<u8>, String>,
        constructor_data: &ExecInput,
        account: AccountId32,
        salt: &[u8; 32],
    ) -> (request: Result<InstantiateRequest, FixtureError>)
        ensures
            final(self)@ == old(self)@.after(Step::Deploy { code }),
            match old(self)@.refusal(Step::Deploy { code }) {
                Some(error) => request == Err::<InstantiateRequest, FixtureError>(error),
                None => request matches Ok(r) && code matches Ok(binary) && r.carries(
                    endowment,
                    gas_limit,
                    binary@,
                    constructor_data.encoding(),
                    salt@,
                    account,
                ),
            },
    {
        match code {
            Err(cause) => Err(FixtureError::BinaryReadFailed { cause }),
            Ok(binary) => {
                let phase = self.phase();
                match phase {
                    Phase::Connected => {
                        self.pending = Pending::Deployment;
                        Ok(
                            InstantiateRequest {
                                endowment,
                                gas_limit,
                                code: binary,
                                data: constructor_data.encode(),
                                salt: encode_salt(salt),
                                signer: account,
                            },
                        )
                    },
                    _ => Err(FixtureError::InvalidPhase { phase }),
                }
            },
        }
    }

    /// Prepares the deployment of a contract with a salt drawn at random,
    /// so that the same binary and constructor input can be deployed again
    /// at another address.
    ///
    /// It fails and succeeds as `instantiate_with_salt` does. The request
    /// carries the arguments and the encoded constructor input; its salt has
    /// `SALT_LEN` bytes, whatever was drawn.
    pub fn instantiate_contract(
        &mut self,
        endowment: u128,
        gas_limit: u64,
        code: Result<Vec<u8>, String>,
        constructor_data: &ExecInput,
        account: AccountId32,
    ) -> (request: Result<InstantiateRequest, FixtureError>)
        ensures
            final(self)@ == old(self)@.after(Step::Deploy { code }),
            match old(self)@.refusal(Step::Deploy { code }) {
                Some(error) => request == Err::<InstantiateRequest, FixtureError>(error),
                None => request matches Ok(r) && code matches Ok(binary) && r.salt@.len()
                    == SALT_LEN && r.carries(
                    endowment,
                    gas_limit,
                    binary@,
                    constructor_data.encoding(),
                    r.salt@,
                    account,
                ),
            },
    {
        let salt = fresh_salt();
        self.instantiate_with_salt(endowment, gas_limit, code, constructor_data, account, &salt)
    }

    /// The address that the events of a deployment give evidence of.
    pub fn instantiated_address(outcome: &Result<Vec<Event>, String>) -> (address: Result<
        AccountId32,
        FixtureError,
    >)
        ensures
            address == deployment_evidence(*outcome),
    {
        match outcome {
            Err(cause) => Err(
                FixtureError::DeploymentUnconfirmed {
                    reason: Unconfirmed::NotFinalized { cause: cause.clone() },
                },
            ),
            Ok(events) => match find_event(events, EventKind::Instantiated) {
                Err(error) => Err(error),
                Ok(Some(Event::Instantiated { contract, .. })) => match find_event(
                    events,
                    EventKind::ExtrinsicSuccess,
                ) {
                    Err(error) => Err(error),
                    Ok(Some(_)) => Ok(contract),
                    Ok(None) => Err(
                        FixtureError::DeploymentUnconfirmed { reason: Unconfirmed::SuccessMissing },
                    ),
                },
                Ok(_) => {
                    proof {
                        lemma_search_finds_kind(events@, EventKind::Instantiated);
                    }
                    Err(
                        FixtureError::DeploymentUnconfirmed {
                            reason: Unconfirmed::InstantiatedMissing,
                        },
                    )
                },
            },
        }
    }

    /// Takes the outcome of the submitted deployment: the events of the
    /// finalized transaction, or why it was not finalized.
    ///
    /// Outside the phase `Deploying` it fails with `InvalidPhase` and the
    /// fixture stays as it is. Otherwise the deployment is over: with the
    /// evidence of `deployment_evidence` the fixture has its contract and
    /// the address is returned; without it the fixture has none and the
    /// failure is returned.
    pub fn confirm_instantiation(&mut self, outcome: Result<Vec<Event>, String>) -> (address:
        Result<AccountId32, FixtureError>)
        ensures
            final(self)@ == old(self)@.after(Step::Deployed { outcome }),
            address == (match old(self)@.refusal(Step::Deployed { outcome }) {
                Some(error) => Err(error),
                None => deployment_evidence(outcome),
            }),
    {
        proof {
            use_type_invariant(&*self);
        }
        let phase = self.phase();
        match phase {
            Phase::Deploying => {
                let address = Self::instantiated_address(&outcome);
                self.pending = Pending::Idle;
                if let Ok(contract) = address {
                    self.contract_address = Some(contract);
                }
                address
            },
            _ => Err(FixtureError::InvalidPhase { phase }),
        }
    }

    /// Prepares a read-only call of the contract in the name of `origin`.
    ///
    /// Outside the phase `Ready` it fails with `InvalidPhase` and the
    /// fixture stays as it is. Otherwise the fixture is `Calling`, and the
    /// request carries the arguments, the address of the contract and the
    /// encoded input.
    pub fn call(
        &mut self,
        origin: AccountId32,
        value: u64,
        gas_limit: u64,
        input_data: &ExecInput,
    ) -> (request: Result<CallRequest, FixtureError>)
        ensures
            final(self)@ == old(self)@.after(Step::Query),
            match old(self)@.refusal(Step::Query) {
                Some(error) => request == Err::<CallRequest, FixtureError>(error),
                None => request matches Ok(r) && old(self)@.contract_address matches Some(dest)
                    && r.carries(origin, dest, value, gas_limit, input_data.encoding()),
            },
    {
        let phase = self.phase();
        match (phase, self.contract_address) {
            (Phase::Ready, Some(dest)) => {
                self.pending = Pending::Query;
                Ok(CallRequest { origin, dest, value, gas_limit, input_data: input_data.encode() })
            },
            _ => Err(FixtureError::InvalidPhase { phase }),
        }
    }

    /// Takes the answer to the read-only call, or why none came.
    ///
    /// Unless a read-only call is under way it fails with `InvalidPhase`
    /// and the fixture stays as it is. Otherwise the call is over and the
    /// fixture is `Ready` again: a failure in transport is `QueryFailed`,
    /// and any answer of the ledger is returned as it is, also that of an
    /// execution that failed.
    pub fn call_returned(&mut self, response: Result<ContractExecResult, String>) -> (answer:
        Result<ContractExecResult, FixtureError>)
        ensures
            final(self)@ == old(self)@.after(Step::QueryReturned),
            answer == (match old(self)@.refusal(Step::QueryReturned) {
                Some(error) => Err(error),
                None => query_evidence(response),
            }),
    {
        proof {
            use_type_invariant(&*self);
        }
        let phase = self.phase();
        match (phase, self.pending) {
            (Phase::Calling, Pending::Query) => {
                self.pending = Pending::Idle;
                match response {
                    Err(cause) => Err(FixtureError::QueryFailed { cause }),
                    Ok(answer) => Ok(answer),
                }
            },
            _ => Err(FixtureError::InvalidPhase { phase }),
        }
    }

    /// Prepares a mutating call of the contract, signed by `account`.
    ///
    /// Outside the phase `Ready` it fails with `InvalidPhase` and the
    /// fixture stays as it is. Otherwise the fixture is `Calling`, and the
    /// call carries the arguments, the address of the contract and the
    /// encoded input.
    pub fn call_ext(
        &mut self,
        account: AccountId32,
        value: u64,
        gas_limit: u64,
        input_data: &ExecInput,
    ) -> (request: Result<ExtrinsicCall, FixtureError>)
        ensures
            final(self)@ == old(self)@.after(Step::Call),
            match old(self)@.refusal(Step::Call) {
                Some(error) => request == Err::<ExtrinsicCall, FixtureError>(error),
                None => request matches Ok(r) && old(self)@.contract_address matches Some(dest)
                    && r.carries(dest, value, gas_limit, input_data.encoding(), account),
            },
    {
        let phase = self.phase();
        match (phase, self.contract_address) {
            (Phase::Ready, Some(dest)) => {
                self.pending = Pending::Extrinsic;
                Ok(
                    ExtrinsicCall {
                        dest,
                        value: value as u128,
                        gas_limit,
                        data: input_data.encode(),
                        signer: account,
                    },
                )
            },
            _ => Err(FixtureError::InvalidPhase { phase }),
        }
    }

    /// Whether the events of a mutating call give evidence of its success.
    pub fn call_succeeded(outcome: &Result<Vec<Event>, String>) -> (confirmed: Result<
        (),
        FixtureError,
    >)
        ensures
            confirmed == call_evidence(*outcome),
    {
        match outcome {
            Err(cause) => Err(
                FixtureError::CallUnconfirmed {
                    reason: Unconfirmed::NotFinalized { cause: cause.clone() },
                },
            ),
            Ok(events) => match find_event(events, EventKind::ExtrinsicSuccess) {
                Err(error) => Err(error),
                Ok(Some(_)) => Ok(()),
                Ok(None) => Err(
                    FixtureError::CallUnconfirmed { reason: Unconfirmed::SuccessMissing },
                ),
            },
        }
    }

    /// Takes the outcome of the submitted call: the events of the finalized
    /// transaction, or why it was not finalized.
    ///
    /// Unless a mutating call is under way it fails with `InvalidPhase` and
    /// the fixture stays as it is. Otherwise the call is over and the
    /// fixture is `Ready` again; the call is confirmed if `call_evidence`
    /// says so.
    pub fn confirm_call_ext(&mut self, outcome: Result<Vec<Event>, String>) -> (confirmed: Result<
        (),
        FixtureError,
    >)
        ensures
            final(self)@ == old(self)@.after(Step::CallEnded),
            confirmed == (match old(self)@.refusal(Step::CallEnded) {
                Some(error) => Err(error),
                None => call_evidence(outcome),
            }),
    {
        proof {
            use_type_invariant(&*self);
        }
        let phase = self.phase();
        match (phase, self.pending) {
            (Phase::Calling, Pending::Extrinsic) => {
                self.pending = Pending::Idle;
                Self::call_succeeded(&outcome)
            },
            _ => Err(FixtureError::InvalidPhase { phase }),
        }
    }

    /// Asks for the node to be stopped and says what to do to the process.
    pub fn shutdown(&mut self) -> (action: StopAction)
        ensures
            final(self)@ == old(self)@.after(Step::Shutdown),
            action == old(self)@.base.node.after_shutdown().1,
    {
        proof {
            use_type_invariant(&*self);
        }
        self.test_base_context.shutdown()
    }

    /// Records how the wait for the exit ended and says what is left to do.
    pub fn finish_shutdown(&mut self, exited: bool) -> (action: StopAction)
        ensures
            final(self)@ == old(self)@.after(Step::ShutdownWaited { exited }),
            action == old(self)@.base.node.after_wait(exited).1,
    {
        proof {
            use_type_invariant(&*self);
        }
        self.test_base_context.finish_shutdown(exited)
    }
}

impl ContractState {
    /// The fixture after the steps, taken one after the other.
    pub open spec fn after_all(self, steps: Seq<Step>) -> ContractState
        decreases steps.len(),
    {
        if steps.len() == 0 {
            self
        } else {
            self.after(steps[0]).after_all(steps.drop_first())
        }
    }
}

/// No step breaks a fixture: what is well-formed stays so.
pub proof fn lemma_step_keeps_wf(state: ContractState, step: Step)
    requires
        state.wf(),
    ensures
        state.after(step).wf(),
{
}

/// Every step moves a fixture along the order of its phases, or leaves it
/// in the phase it is in.
pub proof fn lemma_step_follows_phases(state: ContractState, step: Step)
    requires
        state.wf(),
    ensures
        state.after(step).phase() == state.phase() || state.phase().precedes(
            state.after(step).phase(),
        ),
{
}

/// A deployment that succeeds leaves the fixture in `Ready` with the address
/// that the ledger assigned.
pub proof fn lemma_deployment_gives_address(
    state: ContractState,
    outcome: Result<Vec<Event>, String>,
)
    requires
        state.wf(),
        state.phase() is Deploying,
        deployment_evidence(outcome) is Ok,
    ensures
        state.after(Step::Deployed { outcome }).contract_address == Some(
            deployment_evidence(outcome)->Ok_0,
        ),
        state.after(Step::Deployed { outcome }).phase() is Ready,
{
}

/// Once a fixture has its contract, the address stays: no step changes it.
pub proof fn lemma_address_is_stable(state: ContractState, step: Step)
    requires
        state.wf(),
        state.contract_address is Some,
    ensures
        state.after(step).contract_address == state.contract_address,
{
}

/// Once a fixture has its contract, the address stays through any run of
/// steps.
pub proof fn lemma_address_is_stable_through(state: ContractState, steps: Seq<Step>)
    requires
        state.wf(),
        state.contract_address is Some,
    ensures
        state.after_all(steps).contract_address == state.contract_address,
        state.after_all(steps).wf(),
    decreases steps.len(),
{
    if steps.len() > 0 {
        lemma_step_keeps_wf(state, steps[0]);
        lemma_address_is_stable(state, steps[0]);
        lemma_address_is_stable_through(state.after(steps[0]), steps.drop_first());
    }
}

/// Calls are permitted in `Ready` alone, and a deployment in `Connected`
/// alone.
pub proof fn lemma_operations_need_their_phase(state: ContractState, binary: Vec<u8>)
    ensures
        state.refusal(Step::Query) is None <==> state.phase() is Ready,
        state.refusal(Step::Call) is None <==> state.phase() is Ready,
        state.refusal(Step::Deploy { code: Ok(binary) }) is None <==> state.phase() is Connected,
{
}

/// One operation at a time: while the outcome of one is awaited, no other
/// is begun.
pub proof fn lemma_one_operation_at_a_time(state: ContractState, binary: Vec<u8>)
    requires
        !(state.pending is Idle),
    ensures
        state.refusal(Step::Query) is Some,
        state.refusal(Step::Call) is Some,
        state.refusal(Step::Deploy { code: Ok(binary) }) is Some,
{
}

/// Two deployments that differ in their salt are different requests,
/// whatever else they share.
pub proof fn lemma_salt_distinguishes_requests(
    first: InstantiateRequest,
    second: InstantiateRequest,
    endowment: u128,
    gas_limit: u64,
    code: Seq<u8>,
    data: Seq<u8>,
    first_salt: Seq<u8>,
    second_salt: Seq<u8>,
    signer: AccountId32,
)
    requires
        first.carries(endowment, gas_limit, code, data, first_salt, signer),
        second.carries(endowment, gas_limit, code, data, second_salt, signer),
        first_salt != second_salt,
    ensures
        first != second,
        first.salt@ != second.salt@,
{
}

} // verus!
