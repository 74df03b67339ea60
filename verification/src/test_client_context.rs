//! The client session of a fixture, as far as the fixture decides on it: the
//! endpoint that the session targets.

use crate::decimal::{append_decimal, decimal};
use crate::test_node_context::Port;
use vstd::prelude::*;
use vstd::string::StringExecFns;

verus! {

/// The address of the client endpoint of a node on `host`.
pub open spec fn endpoint_url(host: Seq<char>, port: Port) -> Seq<char> {
    "ws://"@ + host + ":"@ + decimal(port as nat)
}

/// The target of a client session. It is fixed when the context is made: a
/// new connection is a new context.
#[derive(Clone, Debug, PartialEq, Eq)]
pub struct TestClientContext {
    url: String,
}

impl View for TestClientContext {
    type V = Seq<char>;

    closed spec fn view(&self) -> Seq<char> {
        self.url@
    }
}

impl TestClientContext {
    /// The session that targets the client endpoint of the node on `host`
    /// that listens on `ws_port`.
    pub fn new(host: &str, ws_port: Port) -> (ctx: TestClientContext)
        ensures
            ctx@ == endpoint_url(host@, ws_port),
    {
        let mut url = String::from_str("ws://");
        url.append(host);
        url.append(":");
        append_decimal(&mut url, ws_port as u64);
        TestClientContext { url }
    }

    /// The address that the session connects to.
    pub fn url(&self) -> (url: &str)
        ensures
            url@ == self@,
    {
        self.url.as_str()
    }
}

} // verus!
