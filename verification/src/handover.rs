//! What is handed to the fuzzer.
//!
//! The fuzzer keeps what it is told to itself: no value here shows it. So whatever is handed over
//! comes with a receipt, and nothing but handing over makes one. A function that gives back a
//! receipt has done what the receipt says.

use vstd::prelude::*;
use vstd::string::*;

verus! {

/// The receipt for a violation that was handed to the fuzzer.
#[derive(Debug)]
pub struct Violation {
    message: String,
}

impl View for Violation {
    type V = Seq<char>;

    closed spec fn view(&self) -> Seq<char> {
        self.message@
    }
}

impl Violation {
    /// The message that was handed over.
    pub fn text(&self) -> (r: &str)
        ensures
            r@ == self@,
    {
        self.message.as_str()
    }
}

/// The receipt for a mode of chains that the fuzzer was told.
#[derive(Debug)]
pub struct ChainMode {
    ends_on_failure: bool,
}

impl ChainMode {
    /// Whether a failed action ends the chain of actions that it stands in.
    pub closed spec fn ends_chains(self) -> bool {
        self.ends_on_failure
    }
}

/// `crucible_test_context::record_violation`: the fuzzer keeps the message to report it, unless it
/// keeps an earlier one already. The receipt carries the message.
#[verifier::external_body]
pub(crate) fn hand_over_violation(message: String) -> (r: Violation)
    ensures
        r@ == message@,
{
    crucible_test_context::record_violation(message.clone());
    Violation { message }
}

/// `crucible_test_context::set_stateful_chain_mode`: whether a failed action ends the chain of
/// actions on this thread. The receipt carries the mode.
#[verifier::external_body]
pub(crate) fn set_chain_mode(ends_on_failure: bool) -> (r: ChainMode)
    ensures
        r.ends_chains() == ends_on_failure,
{
    crucible_test_context::set_stateful_chain_mode(ends_on_failure);
    ChainMode { ends_on_failure }
}

} // verus!
