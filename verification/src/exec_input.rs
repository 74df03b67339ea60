//! The input of a contract execution: a selector, then the encoded
//! arguments.

use crate::selector::{selector_for, selector_of, MethodSelector};
use ink_env::call::{ExecutionInput, Selector};
use parity_scale_codec::Encode;
use vstd::prelude::*;

verus! {

/// Encodes an `ExecutionInput` of `ink_env` that holds the selector and an
/// empty argument list, with the `Encode` impl that `ink_env` gives it. That
/// impl writes the selector's four bytes, then the arguments, of which there
/// are none.
#[verifier::external_body]
fn encode_bare_input(selector: [u8; 4]) -> (out: Vec<u8>)
    ensures
        out@ == selector@,
{
    ExecutionInput::new(Selector::new(selector)).encode()
}

/// What a constructor or a message of a contract is called with.
#[derive(Clone, Debug, PartialEq, Eq)]
pub struct ExecInput {
    selector: MethodSelector,
    args: Vec<u8>,
}

impl ExecInput {
    /// The selector that dispatches the execution.
    pub closed spec fn selector_spec(self) -> MethodSelector {
        self.selector
    }

    /// The encoded arguments, in the order in which they were pushed.
    pub closed spec fn args_spec(self) -> Seq<u8> {
        self.args@
    }

    /// The bytes that go to the ledger: the selector, then the arguments.
    pub open spec fn encoding(self) -> Seq<u8> {
        self.selector_spec()@ + self.args_spec()
    }

    /// The input that holds `selector` and no arguments.
    pub fn new(selector: MethodSelector) -> (input: ExecInput)
        ensures
            input.selector_spec() == selector,
            input.args_spec() == Seq::<u8>::empty(),
    {
        ExecInput { selector, args: Vec::new() }
    }

    /// The input for the method of the given name, without arguments.
    pub fn for_method(method: &str) -> (input: ExecInput)
        ensures
            input.selector_spec()@ == selector_of(method@),
            input.args_spec() == Seq::<u8>::empty(),
    {
        ExecInput::new(selector_for(method))
    }

    /// Adds an argument, given in its encoded form, after those already
    /// pushed.
    pub fn push_arg(self, encoded: &[u8]) -> (input: ExecInput)
        ensures
            input.selector_spec() == self.selector_spec(),
            input.args_spec() == self.args_spec() + encoded@,
    {
        let mut input = self;
        input.args.extend_from_slice(encoded);
        input
    }

    /// The selector of the input.
    pub fn selector(&self) -> (sel: MethodSelector)
        ensures
            sel == self.selector_spec(),
    {
        self.selector
    }

    /// The encoded arguments of the input.
    pub fn args(&self) -> (args: &[u8])
        ensures
            args@ == self.args_spec(),
    {
        self.args.as_slice()
    }

    /// Encodes the input for the ledger.
    pub fn encode(&self) -> (out: Vec<u8>)
        ensures
            out@ == self.encoding(),
    {
        let mut out = encode_bare_input(self.selector.bytes);
        out.extend_from_slice(self.args.as_slice());
        out
    }
}

} // verus!
