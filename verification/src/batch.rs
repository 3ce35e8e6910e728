//! Read calls against a token contract, and the batch that carries several
//! of them to a chain in one round trip.

use crate::address::Address;
use ethers_core::types::Chain;
use vstd::prelude::*;

verus! {

/// `ethers_core::types::Chain`, the identifier of a network. The library
/// carries it and never looks inside.
#[verifier::external_type_specification]
#[verifier::external_body]
pub struct ExChain(Chain);

/// The read-only metadata functions of an ERC20 contract. None takes an
/// argument.
#[derive(Clone, Copy, Debug, PartialEq, Eq)]
pub enum Getter {
    /// `name() -> string`
    Name,
    /// `symbol() -> string`
    Symbol,
    /// `decimals() -> uint8`
    Decimals,
}

/// An unexecuted read call: which function, on which contract.
#[derive(Clone, Copy, Debug, PartialEq, Eq)]
pub struct Call {
    pub target: Address,
    pub function: Getter,
}

/// A call as a batch holds it.
#[derive(Clone, Copy, Debug, PartialEq, Eq)]
pub struct BatchedCall {
    pub call: Call,
    /// Whether the batch goes on when this call fails.
    pub allow_failure: bool,
}

/// Calls to be made together on one chain, in the order in which they were
/// added.
#[derive(Debug)]
pub struct Batch {
    pub chain: Chain,
    pub calls: Vec<BatchedCall>,
}

impl Batch {
    /// An empty batch for `chain`.
    pub fn new(chain: Chain) -> (batch: Batch)
        ensures
            batch.chain == chain,
            batch.calls@ == Seq::<BatchedCall>::empty(),
    {
        Batch { chain, calls: Vec::new() }
    }

    /// Appends `call` and hands the batch back, so that calls can be chained.
    pub fn add_call(&mut self, call: Call, allow_failure: bool) -> (batch: &mut Batch)
        ensures
            batch.chain == old(self).chain,
            batch.calls@ == old(self).calls@.push(BatchedCall { call, allow_failure }),
            *final(self) == *final(batch),
    {
        self.calls.push(BatchedCall { call, allow_failure });
        self
    }
}

} // verus!
