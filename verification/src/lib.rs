//! Logic of a contract test fixture: node launch, connection retry, selector
//! derivation, deployment and call orchestration over ledger events.

pub mod account;
pub mod decimal;
pub mod error;
pub mod events;
pub mod exec_input;
pub mod phase;
pub mod selector;
pub mod test_base_context;
pub mod test_client_context;
pub mod test_contract_context;
pub mod test_node_context;
